//! What Git reports about a working tree. The Git commands themselves are run
//! by the caller's `run` function, which takes the arguments after `git`;
//! this module decides what to ask and what the answers mean.

use vstd::prelude::*;

use crate::process::{CommandError, ErrorKind};
use crate::text::{
    chars_of, find_char, first_index, int_error_message, int_error_text, parse_usize,
    parse_usize_chars, push_decimal, decimal, string_of, sub_chars, trim, trim_chars, trimmed,
    IntError,
};

verus! {

/// The branch (or abbreviated commit, when detached) and the number of changed paths.
#[derive(Debug, Clone, PartialEq, Eq)]
pub struct GitInfo {
    pub branch: String,
    pub changed_files: usize,
}

/// The newest commit.
#[derive(Debug, Clone, PartialEq, Eq)]
pub struct CommitInfo {
    pub hash: String,
    pub message: String,
}

/// The characters of each argument.
pub open spec fn args_view(a: &[&str]) -> Seq<Seq<char>> {
    a@.map_values(|s: &str| s@)
}

/// `run`, given the arguments `args`, may return `r`.
pub open spec fn ran<F: Fn(&[&str]) -> Result<String, CommandError>>(
    run: F,
    args: Seq<Seq<char>>,
    r: Result<String, CommandError>,
) -> bool {
    exists|a: &[&str]| #[trigger] args_view(a) == args && call_ensures(run, (a,), r)
}

pub open spec fn git_dir_args() -> Seq<Seq<char>> {
    seq!["rev-parse"@, "--git-dir"@]
}

pub open spec fn branch_args() -> Seq<Seq<char>> {
    seq!["symbolic-ref"@, "--quiet"@, "--short"@, "HEAD"@]
}

pub open spec fn short_head_args() -> Seq<Seq<char>> {
    seq!["rev-parse"@, "--short"@, "HEAD"@]
}

pub open spec fn status_args() -> Seq<Seq<char>> {
    seq!["status"@, "--porcelain=v1"@, "-z"@, "--untracked-files=all"@]
}

pub open spec fn verify_head_args() -> Seq<Seq<char>> {
    seq!["rev-parse"@, "--verify"@, "--quiet"@, "HEAD"@]
}

pub open spec fn count_args() -> Seq<Seq<char>> {
    seq!["rev-list"@, "--count"@, "HEAD"@]
}

pub open spec fn describe_args() -> Seq<Seq<char>> {
    seq!["describe"@, "--tags"@, "--abbrev=0"@]
}

pub open spec fn log_args() -> Seq<Seq<char>> {
    seq!["log"@, "-1"@, "--format=%s"@, "HEAD"@]
}

/// `s` begins with `p`.
pub open spec fn has_prefix(s: Seq<char>, p: Seq<char>) -> bool {
    p.len() <= s.len() && s.take(p.len() as int) == p
}

/// Git said that the directory is not in a repository.
pub open spec fn not_a_repository(e: CommandError) -> bool {
    e.kind == ErrorKind::Failed && has_prefix(e.stderr@, "fatal: not a git repository (or any"@)
}

/// A Git query that ran and answered "no" with exit status 1
/// (a detached HEAD, or no commit yet).
pub open spec fn answered_no(e: CommandError) -> bool {
    e.kind == ErrorKind::Failed && e.exit_code == Some(1i32)
}

/// The non-empty records of `git status -z` output, which separates records with NUL.
pub open spec fn records(s: Seq<char>) -> Seq<Seq<char>>
    decreases s.len(),
{
    if s.len() == 0 {
        Seq::empty()
    } else {
        let k = first_index(s, '\0');
        let head = s.take(k as int);
        let tail = if k < s.len() {
            records(s.skip((k + 1) as int))
        } else {
            Seq::empty()
        };
        if head.len() == 0 {
            tail
        } else {
            seq![head] + tail
        }
    }
}

/// A rename or copy record, which a second record (the source path) follows:
/// one of its first two bytes in UTF-8 is `R` or `C`. A character outside ASCII
/// encodes to bytes above 127 only, so the second byte is the second character
/// only where the first character is ASCII.
pub open spec fn is_pair(r: Seq<char>) -> bool {
    (r.len() > 0 && (r[0] == 'R' || r[0] == 'C')) || (r.len() > 1 && (r[0] as u32) < 128 && (r[1]
        == 'R' || r[1] == 'C'))
}

/// The number of changed paths in `recs[i..]`: one per record, where a rename
/// or copy takes its source record along.
pub open spec fn count_from(recs: Seq<Seq<char>>, i: nat) -> nat
    decreases recs.len() + 1 - i,
{
    if i >= recs.len() {
        0
    } else if is_pair(recs[i as int]) {
        1 + count_from(recs, i + 2)
    } else {
        1 + count_from(recs, i + 1)
    }
}

/// The number of changed paths in `git status --porcelain=v1 -z` output.
pub open spec fn changed_paths(status: Seq<char>) -> nat {
    count_from(records(status), 0)
}

/// `GitInfo` with texts as character sequences.
pub struct GitInfoModel {
    pub branch: Seq<char>,
    pub changed_files: nat,
}

pub open spec fn git_info_view(i: GitInfo) -> GitInfoModel {
    GitInfoModel { branch: i.branch@, changed_files: i.changed_files as nat }
}

pub open spec fn inspect_view(r: Result<Option<GitInfo>, CommandError>) -> Result<
    Option<GitInfoModel>,
    CommandError,
> {
    match r {
        Ok(Some(i)) => Ok(Some(git_info_view(i))),
        Ok(None) => Ok(None),
        Err(e) => Err(e),
    }
}

/// The branch that the answers to `symbolic-ref` and, on a detached HEAD, `rev-parse --short` give.
pub open spec fn branch_outcome(
    r2: Result<String, CommandError>,
    r3: Result<String, CommandError>,
) -> Result<String, CommandError> {
    match r2 {
        Ok(b) => Ok(b),
        Err(e) => if answered_no(e) {
            r3
        } else {
            Err(e)
        },
    }
}

/// What `inspect` reports, given the answers to its four queries in turn: the
/// Git directory, the branch, the short HEAD (asked only on a detached HEAD),
/// and the status. Only a positive "not a git repository" gives `Ok(None)`;
/// any other failure, a timeout included, is an error and never a clean tree.
pub open spec fn inspect_outcome(
    r1: Result<String, CommandError>,
    r2: Result<String, CommandError>,
    r3: Result<String, CommandError>,
    r4: Result<String, CommandError>,
) -> Result<Option<GitInfoModel>, CommandError> {
    match r1 {
        Err(e) => if not_a_repository(e) {
            Ok(None)
        } else {
            Err(e)
        },
        Ok(_) => match branch_outcome(r2, r3) {
            Err(e) => Err(e),
            Ok(b) => match r4 {
                Err(e) => Err(e),
                Ok(status) => Ok(
                    Some(GitInfoModel { branch: trim(b@), changed_files: changed_paths(status@) }),
                ),
            },
        },
    }
}

/// Git failures and timeouts are never read as a clean tree or as no
/// repository: no repository only where the first query failed saying so, a
/// tree (clean or not) only where every query made succeeded, and a timeout of
/// the first query is always an error.
pub proof fn failures_are_not_clean_or_absent(
    r1: Result<String, CommandError>,
    r2: Result<String, CommandError>,
    r3: Result<String, CommandError>,
    r4: Result<String, CommandError>,
)
    ensures
        inspect_outcome(r1, r2, r3, r4) matches Ok(None) ==> (r1 matches Err(e) && not_a_repository(e)),
        inspect_outcome(r1, r2, r3, r4) matches Ok(Some(_)) ==> r1 is Ok && branch_outcome(r2, r3) is Ok
            && r4 is Ok,
        (r1 matches Err(e) && e.kind == ErrorKind::Timeout) ==> inspect_outcome(r1, r2, r3, r4) is Err,
        (r1 is Ok && branch_outcome(r2, r3) is Ok && r4 is Err) ==> inspect_outcome(r1, r2, r3, r4)
            == Err::<Option<GitInfoModel>, CommandError>(r4->Err_0),
{
}

/// The queries that `inspect` makes, with those answers: each is asked only
/// where the answers before it lead to it.
pub open spec fn inspect_queries<F: Fn(&[&str]) -> Result<String, CommandError>>(
    run: F,
    r1: Result<String, CommandError>,
    r2: Result<String, CommandError>,
    r3: Result<String, CommandError>,
    r4: Result<String, CommandError>,
) -> bool {
    &&& ran(run, git_dir_args(), r1)
    &&& r1 is Ok ==> ran(run, branch_args(), r2)
    &&& (r1 is Ok && r2 is Err && answered_no(r2->Err_0)) ==> ran(run, short_head_args(), r3)
    &&& (r1 is Ok && branch_outcome(r2, r3) is Ok) ==> ran(run, status_args(), r4)
}

/// Calls `run` with the arguments `args`, and states what it may return.
fn call<F: Fn(&[&str]) -> Result<String, CommandError>>(
    run: &F,
    args: Vec<&str>,
    Ghost(expected): Ghost<Seq<Seq<char>>>,
) -> (r: Result<String, CommandError>)
    requires
        forall|a: &[&str]| #[trigger] call_requires(*run, (a,)),
        args@.map_values(|s: &str| s@) =~= expected,
    ensures
        ran(*run, expected, r),
{
    let a = args.as_slice();
    let r = run(a);
    assert(args_view(a) == expected);
    r
}

fn starts_with_text(s: &String, p: &str) -> (r: bool)
    ensures
        r == has_prefix(s@, p@),
{
    let v = chars_of(s.as_str());
    let w = chars_of(p);
    if w.len() > v.len() {
        return false;
    }
    let head = sub_chars(&v, 0, w.len());
    let r = crate::text::same_chars(&head, &w);
    assert(v@.take(w@.len() as int) == head@);
    r
}

/// Splits `git status -z` output into its non-empty records.
fn split_records(status: &str) -> (r: Vec<Vec<char>>)
    ensures
        r@.map_values(|x: Vec<char>| x@) == records(status@),
{
    let v = chars_of(status);
    let mut out: Vec<Vec<char>> = Vec::new();
    let mut pos: usize = 0;
    assert(v@.skip(0) == v@);
    while pos < v.len()
        invariant
            pos <= v@.len(),
            v@ == status@,
            records(v@) == out@.map_values(|x: Vec<char>| x@) + records(v@.skip(pos as int)),
        decreases v.len() - pos,
    {
        let ghost s = v@.skip(pos as int);
        let ghost before = out@.map_values(|x: Vec<char>| x@);
        let rest = sub_chars(&v, pos, v.len());
        assert(rest@ == s);
        let k = find_char(&rest, '\0');
        let head = sub_chars(&rest, 0, k);
        assert(head@ == s.take(k as int));
        if head.len() > 0 {
            out.push(head);
            assert(out@.map_values(|x: Vec<char>| x@) == before.push(s.take(k as int)));
        }
        if k < rest.len() {
            assert(s.skip(k + 1) == v@.skip(pos + k + 1));
            pos = pos + k + 1;
        } else {
            pos = v.len();
        }
        assert(records(v@) == out@.map_values(|x: Vec<char>| x@) + records(v@.skip(pos as int)));
    }
    assert(v@.skip(pos as int).len() == 0);
    out
}

proof fn lemma_count_bound(recs: Seq<Seq<char>>, i: nat)
    ensures
        count_from(recs, i) <= if i <= recs.len() { recs.len() - i } else { 0 },
    decreases recs.len() + 1 - i,
{
    if i < recs.len() {
        lemma_count_bound(recs, i + 1);
        lemma_count_bound(recs, i + 2);
    }
}

/// The number of changed paths in `git status --porcelain=v1 -z` output.
pub fn count_changed(status: &str) -> (n: usize)
    ensures
        n == changed_paths(status@),
{
    let recs = split_records(status);
    let ghost rs = recs@.map_values(|x: Vec<char>| x@);
    let mut i: usize = 0;
    let mut n: usize = 0;
    proof {
        lemma_count_bound(rs, 0);
    }
    while i < recs.len()
        invariant
            i <= recs@.len() + 1,
            rs == recs@.map_values(|x: Vec<char>| x@),
            n + count_from(rs, i as nat) == count_from(rs, 0),
            count_from(rs, 0) <= recs@.len(),
        decreases recs.len() + 1 - i,
    {
        let r = &recs[i];
        assert(rs[i as int] == r@);
        let pair = (r.len() > 0 && (r[0] == 'R' || r[0] == 'C')) || (r.len() > 1 && (r[0] as u32)
            < 128 && (r[1] == 'R' || r[1] == 'C'));
        proof {
            lemma_count_bound(rs, i as nat);
        }
        n += 1;
        if pair && i + 1 < recs.len() {
            i += 2;
        } else {
            i += 1;
        }
    }
    n
}

/// `n == 0` is a clean tree; otherwise the number of changed files.
pub open spec fn change_status_text(n: nat) -> Seq<char> {
    if n == 0 {
        "clean"@
    } else {
        decimal(n) + " changed file(s)"@
    }
}

/// The working-tree status as shown: `clean`, or `N changed file(s)`.
pub fn change_status(changed_files: usize) -> (r: String)
    ensures
        r@ == change_status_text(changed_files as nat),
{
    if changed_files == 0 {
        String::from_str("clean")
    } else {
        let mut r = String::new();
        push_decimal(&mut r, changed_files as u64);
        r.append(" changed file(s)");
        r
    }
}

/// The branch and change count of the repository that `run` (Git, run in the
/// directory) queries; `Ok(None)` only where Git positively says there is no repository.
pub fn inspect<F: Fn(&[&str]) -> Result<String, CommandError>>(run: F) -> (r: Result<
    Option<GitInfo>,
    CommandError,
>)
    requires
        forall|a: &[&str]| #[trigger] call_requires(run, (a,)),
    ensures
        exists|
            r1: Result<String, CommandError>,
            r2: Result<String, CommandError>,
            r3: Result<String, CommandError>,
            r4: Result<String, CommandError>,
        |
            #![trigger inspect_outcome(r1, r2, r3, r4)]
            inspect_queries(run, r1, r2, r3, r4) && inspect_view(r) == inspect_outcome(r1, r2, r3, r4),
{
    inspect_with(run)
}

/// The branch and change count of the repository that `run` queries; `Ok(None)`
/// only where Git positively says there is no repository.
pub fn inspect_with<F: Fn(&[&str]) -> Result<String, CommandError>>(run: F) -> (r: Result<
    Option<GitInfo>,
    CommandError,
>)
    requires
        forall|a: &[&str]| #[trigger] call_requires(run, (a,)),
    ensures
        exists|
            r1: Result<String, CommandError>,
            r2: Result<String, CommandError>,
            r3: Result<String, CommandError>,
            r4: Result<String, CommandError>,
        |
            #![trigger inspect_outcome(r1, r2, r3, r4)]
            inspect_queries(run, r1, r2, r3, r4) && inspect_view(r) == inspect_outcome(r1, r2, r3, r4),
{
    let r1 = call(&run, vec!["rev-parse", "--git-dir"], Ghost(git_dir_args()));
    let ghost g1 = r1;
    match r1 {
        Ok(_) => {},
        Err(error) => {
            let absent = error.kind == ErrorKind::Failed && starts_with_text(
                &error.stderr,
                "fatal: not a git repository (or any",
            );
            assert(inspect_queries(run, g1, g1, g1, g1));
            if absent {
                assert(inspect_view(Ok(None)) == inspect_outcome(g1, g1, g1, g1));
                return Ok(None);
            }
            assert(inspect_view(Err(error)) == inspect_outcome(g1, g1, g1, g1));
            return Err(error);
        },
    }
    let r2 = call(&run, vec!["symbolic-ref", "--quiet", "--short", "HEAD"], Ghost(branch_args()));
    let ghost g2 = r2;
    let ghost mut g3 = r2;
    let branch = match r2 {
        Ok(b) => b,
        Err(error) => {
            if error.kind == ErrorKind::Failed && error.exit_code == Some(1i32) {
                let r3 = call(&run, vec!["rev-parse", "--short", "HEAD"], Ghost(short_head_args()));
                proof {
                    g3 = r3;
                }
                match r3 {
                    Ok(b) => b,
                    Err(e) => {
                        assert(inspect_queries(run, g1, g2, g3, g3));
                        assert(inspect_view(Err(e)) == inspect_outcome(g1, g2, g3, g3));
                        return Err(e);
                    },
                }
            } else {
                assert(inspect_queries(run, g1, g2, g3, g3));
                assert(inspect_view(Err(error)) == inspect_outcome(g1, g2, g3, g3));
                return Err(error);
            }
        },
    };
    let r4 = call(
        &run,
        vec!["status", "--porcelain=v1", "-z", "--untracked-files=all"],
        Ghost(status_args()),
    );
    let ghost g4 = r4;
    let status = match r4 {
        Ok(s) => s,
        Err(e) => {
            assert(inspect_queries(run, g1, g2, g3, g4));
            assert(inspect_view(Err(e)) == inspect_outcome(g1, g2, g3, g4));
            return Err(e);
        },
    };
    let changed_files = count_changed(status.as_str());
    let info = GitInfo { branch: trimmed(branch.as_str()), changed_files };
    assert(inspect_queries(run, g1, g2, g3, g4));
    assert(inspect_view(Ok(Some(info))) == inspect_outcome(g1, g2, g3, g4));
    Ok(Some(info))
}

/// Git could not describe HEAD because no tag reaches it.
pub open spec fn no_tag(e: CommandError) -> bool {
    &&& e.kind == ErrorKind::Failed
    &&& e.exit_code == Some(128i32)
    &&& (has_prefix(e.stderr@, "fatal: No names found"@) || has_prefix(
        e.stderr@,
        "fatal: No tags can describe"@,
    ))
}

/// What `commit_count` returns, given the answers to `rev-parse --verify` (`h`)
/// and, where HEAD exists, `rev-list --count` (`c`).
pub open spec fn commit_count_result(
    h: Result<String, CommandError>,
    c: Result<String, CommandError>,
    r: Result<Option<usize>, CommandError>,
) -> bool {
    match h {
        Err(e) => if answered_no(e) {
            r == Ok::<Option<usize>, CommandError>(None)
        } else {
            r == Err::<Option<usize>, CommandError>(e)
        },
        Ok(_) => match c {
            Err(e) => r == Err::<Option<usize>, CommandError>(e),
            Ok(out) => match parse_usize(trim(out@)) {
                Ok(n) => r == Ok::<Option<usize>, CommandError>(Some(n)),
                Err(k) => r matches Err(e) && {
                    &&& e.kind == ErrorKind::Failed
                    &&& e.command@ == "git rev-list --count HEAD"@
                    &&& e.message@ == "invalid commit count: "@ + int_error_text(k)
                    &&& e.stdout == out
                    &&& e.stderr@ == Seq::<char>::empty()
                    &&& e.exit_code == Some(0i32)
                },
            },
        },
    }
}

/// What `latest_tag` returns, given the answer `d` to `describe --tags --abbrev=0`.
pub open spec fn latest_tag_result(d: Result<String, CommandError>, r: Result<Option<String>, CommandError>) -> bool {
    match d {
        Ok(v) => r matches Ok(Some(t)) && t@ == trim(v@),
        Err(e) => if no_tag(e) {
            r == Ok::<Option<String>, CommandError>(None)
        } else {
            r == Err::<Option<String>, CommandError>(e)
        },
    }
}

/// What `latest_commit` returns, given the answers to `rev-parse --verify` (`h`)
/// and, where HEAD exists, `log -1 --format=%s` (`m`).
pub open spec fn latest_commit_result(
    h: Result<String, CommandError>,
    m: Result<String, CommandError>,
    r: Result<Option<CommitInfo>, CommandError>,
) -> bool {
    match h {
        Err(e) => if answered_no(e) {
            r == Ok::<Option<CommitInfo>, CommandError>(None)
        } else {
            r == Err::<Option<CommitInfo>, CommandError>(e)
        },
        Ok(hash) => match m {
            Err(e) => r == Err::<Option<CommitInfo>, CommandError>(e),
            Ok(message) => r matches Ok(Some(info)) && info.hash@ == trim(hash@) && info.message@
                == trim(message@),
        },
    }
}

/// The number of commits reachable from HEAD; `Ok(None)` before the first commit.
pub fn commit_count<F: Fn(&[&str]) -> Result<String, CommandError>>(run: F) -> (r: Result<
    Option<usize>,
    CommandError,
>)
    requires
        forall|a: &[&str]| #[trigger] call_requires(run, (a,)),
    ensures
        exists|h: Result<String, CommandError>, c: Result<String, CommandError>|
            #![trigger commit_count_result(h, c, r)]
            ran(run, verify_head_args(), h) && (h is Ok ==> ran(run, count_args(), c))
                && commit_count_result(h, c, r),
{
    let h = call(&run, vec!["rev-parse", "--verify", "--quiet", "HEAD"], Ghost(verify_head_args()));
    let ghost gh = h;
    match h {
        Err(error) => {
            if error.kind == ErrorKind::Failed && error.exit_code == Some(1i32) {
                assert(commit_count_result(gh, gh, Ok(None)));
                return Ok(None);
            }
            assert(commit_count_result(gh, gh, Err(error)));
            return Err(error);
        },
        Ok(_) => {},
    }
    let c = call(&run, vec!["rev-list", "--count", "HEAD"], Ghost(count_args()));
    let ghost gc = c;
    let output = match c {
        Ok(o) => o,
        Err(e) => {
            assert(commit_count_result(gh, gc, Err(e)));
            return Err(e);
        },
    };
    let parsed = parse_usize_chars(&trim_chars(&chars_of(output.as_str())));
    match parsed {
        Ok(n) => {
            assert(commit_count_result(gh, gc, Ok(Some(n))));
            Ok(Some(n))
        },
        Err(k) => {
            let mut message = String::from_str("invalid commit count: ");
            message.append(int_error_message(k));
            let e = CommandError {
                kind: ErrorKind::Failed,
                command: String::from_str("git rev-list --count HEAD"),
                message,
                stdout: output,
                stderr: String::new(),
                exit_code: Some(0i32),
            };
            assert(commit_count_result(gh, gc, Err(e)));
            Err(e)
        },
    }
}

/// The newest tag reachable from HEAD; `Ok(None)` where no tag describes it.
pub fn latest_tag<F: Fn(&[&str]) -> Result<String, CommandError>>(run: F) -> (r: Result<
    Option<String>,
    CommandError,
>)
    requires
        forall|a: &[&str]| #[trigger] call_requires(run, (a,)),
    ensures
        exists|d: Result<String, CommandError>|
            #![trigger latest_tag_result(d, r)]
            ran(run, describe_args(), d) && latest_tag_result(d, r),
{
    let d = call(&run, vec!["describe", "--tags", "--abbrev=0"], Ghost(describe_args()));
    let ghost gd = d;
    match d {
        Ok(value) => {
            let r = Ok(Some(trimmed(value.as_str())));
            assert(latest_tag_result(gd, r));
            r
        },
        Err(error) => {
            let absent = error.kind == ErrorKind::Failed && error.exit_code == Some(128i32) && (
            starts_with_text(&error.stderr, "fatal: No names found") || starts_with_text(
                &error.stderr,
                "fatal: No tags can describe",
            ));
            if absent {
                assert(latest_tag_result(gd, Ok(None)));
                Ok(None)
            } else {
                assert(latest_tag_result(gd, Err(error)));
                Err(error)
            }
        },
    }
}

/// The hash and subject of the newest commit; `Ok(None)` before the first commit.
pub fn latest_commit<F: Fn(&[&str]) -> Result<String, CommandError>>(run: F) -> (r: Result<
    Option<CommitInfo>,
    CommandError,
>)
    requires
        forall|a: &[&str]| #[trigger] call_requires(run, (a,)),
    ensures
        exists|h: Result<String, CommandError>, m: Result<String, CommandError>|
            #![trigger latest_commit_result(h, m, r)]
            ran(run, verify_head_args(), h) && (h is Ok ==> ran(run, log_args(), m))
                && latest_commit_result(h, m, r),
{
    let h = call(&run, vec!["rev-parse", "--verify", "--quiet", "HEAD"], Ghost(verify_head_args()));
    let ghost gh = h;
    match h {
        Ok(hash) => {
            let m = call(&run, vec!["log", "-1", "--format=%s", "HEAD"], Ghost(log_args()));
            let ghost gm = m;
            match m {
                Ok(message) => {
                    let r = Ok(
                        Some(
                            CommitInfo {
                                hash: trimmed(hash.as_str()),
                                message: trimmed(message.as_str()),
                            },
                        ),
                    );
                    assert(latest_commit_result(gh, gm, r));
                    r
                },
                Err(e) => {
                    assert(latest_commit_result(gh, gm, Err(e)));
                    Err(e)
                },
            }
        },
        Err(error) => {
            if error.kind == ErrorKind::Failed && error.exit_code == Some(1i32) {
                assert(latest_commit_result(gh, gh, Ok(None)));
                Ok(None)
            } else {
                assert(latest_commit_result(gh, gh, Err(error)));
                Err(error)
            }
        },
    }
}

} // verus!
