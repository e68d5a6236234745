//! Snapshots of a project at a point in time, their order, how two of them
//! differ, and the lines shown for them.

use vstd::prelude::*;

use crate::fetch::{opt_text, EnvironmentInfo};
use crate::git::{latest_commit, latest_commit_result, log_args, ran, verify_head_args, CommitInfo};
use crate::process::CommandError;
use crate::project::{contains_name, has_name, line_views, push_all, ProjectReport};
use crate::paths::{extension, extension_of};
use crate::text::{chars_are, chars_of, decimal, digit, push_char, push_decimal, push_decimal_u128, same_text};
use crate::timer::{push_two_digits, two_digits};
use crate::ui::{heading_line, info_line, Ui};

verus! {

/// Tool versions at the time of a snapshot.
#[derive(Debug, Clone, PartialEq, Eq)]
pub struct ToolVersions {
    pub rustc: Option<String>,
    pub cargo: Option<String>,
    pub git: Option<String>,
}

/// The state of a project at one moment; `timestamp` is in milliseconds since the Unix epoch.
#[derive(Debug, Clone, PartialEq, Eq)]
pub struct Snapshot {
    pub timestamp: u128,
    pub working_directory: String,
    pub project_name: String,
    pub project_type: String,
    pub project_version: Option<String>,
    pub git_branch: Option<String>,
    pub git_changed_files: Option<usize>,
    pub latest_commit_hash: Option<String>,
    pub latest_commit_message: Option<String>,
    pub source_file_count: usize,
    pub source_line_count: usize,
    pub tools: ToolVersions,
}

/// How a newer snapshot differs from an older one.
#[derive(Debug, Clone, PartialEq, Eq)]
pub struct SnapshotComparison {
    pub branch: Option<(String, String)>,
    pub changed_files: Option<(usize, usize)>,
    pub source_files_difference: i128,
    pub source_lines_difference: i128,
    pub changed_versions: Vec<(String, Option<String>, Option<String>)>,
}

/// An optional value as shown: the value, or "not available".
pub open spec fn shown(o: Option<Seq<char>>) -> Seq<char> {
    match o {
        Some(v) => v,
        None => "not available"@,
    }
}

/// An optional value as shown.
pub fn display_option(value: &Option<String>) -> (r: String)
    ensures
        r@ == shown(opt_text(*value)),
{
    match value {
        Some(v) => v.clone(),
        None => String::from_str("not available"),
    }
}

fn same_option(a: &Option<String>, b: &Option<String>) -> (r: bool)
    ensures
        r == (opt_text(*a) == opt_text(*b)),
{
    match (a, b) {
        (Some(x), Some(y)) => same_text(x.as_str(), y.as_str()),
        (None, None) => true,
        _ => false,
    }
}

fn clone_option(o: &Option<String>) -> (r: Option<String>)
    ensures
        r == *o,
{
    match o {
        Some(s) => Some(s.clone()),
        None => None,
    }
}

/// One changed version: the tool's name, the version before and after.
pub open spec fn version_change(
    name: Seq<char>,
    before: Option<String>,
    after: Option<String>,
) -> Seq<(Seq<char>, Option<Seq<char>>, Option<Seq<char>>)> {
    if opt_text(before) != opt_text(after) {
        seq![(name, opt_text(before), opt_text(after))]
    } else {
        Seq::empty()
    }
}

/// The versions that changed, among the project's, rustc's, Cargo's and Git's, in that order.
pub open spec fn changed_versions_spec(old: Snapshot, new: Snapshot) -> Seq<
    (Seq<char>, Option<Seq<char>>, Option<Seq<char>>),
> {
    version_change("Project"@, old.project_version, new.project_version) + version_change(
        "Rustc"@,
        old.tools.rustc,
        new.tools.rustc,
    ) + version_change("Cargo"@, old.tools.cargo, new.tools.cargo) + version_change(
        "Git"@,
        old.tools.git,
        new.tools.git,
    )
}

/// A snapshot compared with itself shows no change: the same branch and
/// change count, and no version that changed.
pub proof fn same_snapshot_changes_nothing(s: Snapshot)
    ensures
        opt_text(s.git_branch) == opt_text(s.git_branch),
        s.git_changed_files == s.git_changed_files,
        changed_versions_spec(s, s).len() == 0,
{
    assert(changed_versions_spec(s, s) =~= Seq::empty());
}

/// `v` holds an entry named `name` exactly when `before` and `after`
/// differ, and every entry so named holds `before` and `after`.
pub open spec fn reports_change(
    v: Seq<(Seq<char>, Option<Seq<char>>, Option<Seq<char>>)>,
    name: Seq<char>,
    before: Option<Seq<char>>,
    after: Option<Seq<char>>,
) -> bool {
    &&& (exists|i: int| 0 <= i < v.len() && (#[trigger] v[i]).0 == name) <==> before != after
    &&& forall|i: int| 0 <= i < v.len() && (#[trigger] v[i]).0 == name ==> v[i] == (name, before, after)
}

proof fn lemma_names_avoid(
    x: Seq<(Seq<char>, Option<Seq<char>>, Option<Seq<char>>)>,
    y: Seq<(Seq<char>, Option<Seq<char>>, Option<Seq<char>>)>,
    name: Seq<char>,
)
    requires
        forall|i: int| 0 <= i < x.len() ==> (#[trigger] x[i]).0 != name,
        forall|i: int| 0 <= i < y.len() ==> (#[trigger] y[i]).0 != name,
    ensures
        forall|i: int| 0 <= i < (x + y).len() ==> (#[trigger] (x + y)[i]).0 != name,
{
    assert forall|i: int| 0 <= i < (x + y).len() implies (#[trigger] (x + y)[i]).0 != name by {
        if i >= x.len() {
            assert((x + y)[i] == y[i - x.len()]);
        }
    }
}

proof fn lemma_change_reported(
    pre: Seq<(Seq<char>, Option<Seq<char>>, Option<Seq<char>>)>,
    post: Seq<(Seq<char>, Option<Seq<char>>, Option<Seq<char>>)>,
    name: Seq<char>,
    before: Option<String>,
    after: Option<String>,
)
    requires
        forall|i: int| 0 <= i < pre.len() ==> (#[trigger] pre[i]).0 != name,
        forall|i: int| 0 <= i < post.len() ==> (#[trigger] post[i]).0 != name,
    ensures
        reports_change(
            pre + version_change(name, before, after) + post,
            name,
            opt_text(before),
            opt_text(after),
        ),
{
    let mid = version_change(name, before, after);
    let v = pre + mid + post;
    assert forall|i: int| 0 <= i < v.len() && (#[trigger] v[i]).0 == name implies i == pre.len()
        && mid.len() == 1 && v[i] == mid[0] by {
        if i < pre.len() {
            assert(v[i] == pre[i]);
        } else if i < pre.len() + mid.len() {
            assert(v[i] == mid[i - pre.len()]);
        } else {
            assert(v[i] == post[i - pre.len() - mid.len()]);
        }
    }
    if opt_text(before) != opt_text(after) {
        assert(v[pre.len() as int] == mid[0]);
    }
}

/// Comparing two snapshots lists the project's, rustc's, Cargo's and Git's
/// version under its name exactly when it changed, with the version before
/// and after, and lists nothing else.
pub proof fn changed_versions_are_those_that_differ(old: Snapshot, new: Snapshot)
    ensures
        reports_change(
            changed_versions_spec(old, new),
            "Project"@,
            opt_text(old.project_version),
            opt_text(new.project_version),
        ),
        reports_change(
            changed_versions_spec(old, new),
            "Rustc"@,
            opt_text(old.tools.rustc),
            opt_text(new.tools.rustc),
        ),
        reports_change(
            changed_versions_spec(old, new),
            "Cargo"@,
            opt_text(old.tools.cargo),
            opt_text(new.tools.cargo),
        ),
        reports_change(
            changed_versions_spec(old, new),
            "Git"@,
            opt_text(old.tools.git),
            opt_text(new.tools.git),
        ),
        forall|i: int|
            0 <= i < changed_versions_spec(old, new).len() ==> {
                let e = #[trigger] changed_versions_spec(old, new)[i];
                &&& e.0 == "Project"@ || e.0 == "Rustc"@ || e.0 == "Cargo"@ || e.0 == "Git"@
                &&& e.1 != e.2
            },
{
    reveal_strlit("Project");
    reveal_strlit("Rustc");
    reveal_strlit("Cargo");
    reveal_strlit("Git");
    let p = "Project"@;
    let r = "Rustc"@;
    let c = "Cargo"@;
    let g = "Git"@;
    assert(p != r && p != c && p != g && r != c && r != g && c != g) by {
        assert(p.len() != r.len() && p.len() != g.len() && r.len() != g.len());
        assert(r[0] != c[0]);
    }
    let a = version_change(p, old.project_version, new.project_version);
    let b = version_change(r, old.tools.rustc, new.tools.rustc);
    let cc = version_change(c, old.tools.cargo, new.tools.cargo);
    let d = version_change(g, old.tools.git, new.tools.git);
    let empty = Seq::<(Seq<char>, Option<Seq<char>>, Option<Seq<char>>)>::empty();
    let v = changed_versions_spec(old, new);
    assert(v == a + b + cc + d);
    // Project
    lemma_names_avoid(b, cc, p);
    lemma_names_avoid(b + cc, d, p);
    assert(b + cc + d == b + (cc + d)) by {
        assert(b + cc + d =~= b + (cc + d));
    }
    assert(empty + a + (b + cc + d) =~= v);
    lemma_change_reported(empty, b + cc + d, p, old.project_version, new.project_version);
    // Rustc
    lemma_names_avoid(cc, d, r);
    assert(a + b + (cc + d) =~= v);
    lemma_change_reported(a, cc + d, r, old.tools.rustc, new.tools.rustc);
    // Cargo
    lemma_names_avoid(a, b, c);
    lemma_change_reported(a + b, d, c, old.tools.cargo, new.tools.cargo);
    // Git
    lemma_names_avoid(a, b, g);
    lemma_names_avoid(a + b, cc, g);
    assert(a + b + cc + d + empty =~= v);
    lemma_change_reported(a + b + cc, empty, g, old.tools.git, new.tools.git);
    assert forall|i: int| 0 <= i < v.len() implies {
        let e = #[trigger] v[i];
        &&& e.0 == p || e.0 == r || e.0 == c || e.0 == g
        &&& e.1 != e.2
    } by {
        if i < a.len() {
            assert(v[i] == a[i]);
        } else if i < a.len() + b.len() {
            assert(v[i] == b[i - a.len()]);
        } else if i < a.len() + b.len() + cc.len() {
            assert(v[i] == cc[i - a.len() - b.len()]);
        } else {
            assert(v[i] == d[i - a.len() - b.len() - cc.len()]);
        }
    }
}

/// The changed versions of a comparison, with texts as character sequences.
pub open spec fn versions_view(v: Seq<(String, Option<String>, Option<String>)>) -> Seq<
    (Seq<char>, Option<Seq<char>>, Option<Seq<char>>),
> {
    v.map_values(|t: (String, Option<String>, Option<String>)| (t.0@, opt_text(t.1), opt_text(t.2)))
}

fn push_change(
    out: &mut Vec<(String, Option<String>, Option<String>)>,
    name: &str,
    before: &Option<String>,
    after: &Option<String>,
)
    ensures
        versions_view(final(out)@) == versions_view(old(out)@) + version_change(name@, *before, *after),
{
    if !same_option(before, after) {
        out.push((String::from_str(name), clone_option(before), clone_option(after)));
    }
    assert(versions_view(out@) =~= versions_view(old(out)@) + version_change(name@, *before, *after));
}

impl Snapshot {
    /// The snapshot of a project: its report, the environment's tool versions,
    /// the newest commit where the project is in a repository (asked of Git
    /// through `run`), the time in milliseconds and the working directory.
    pub fn collect<F: Fn(&[&str]) -> Result<String, CommandError>>(
        report: ProjectReport,
        environment: EnvironmentInfo,
        run: F,
        timestamp: u128,
        working_directory: String,
    ) -> (r: Result<Snapshot, CommandError>)
        requires
            forall|a: &[&str]| #[trigger] call_requires(run, (a,)),
        ensures
            report.git is None ==> r is Ok,
            r matches Ok(s) ==> {
                &&& s.timestamp == timestamp
                &&& s.working_directory == working_directory
                &&& s.project_name == report.project.name
                &&& s.project_type == report.project.language
                &&& s.project_version == report.project.version
                &&& match report.git {
                    Some(g) => s.git_branch == Some(g.branch) && s.git_changed_files == Some(
                        g.changed_files,
                    ),
                    None => s.git_branch is None && s.git_changed_files is None
                        && s.latest_commit_hash is None && s.latest_commit_message is None,
                }
                &&& s.source_file_count == report.source.files
                &&& s.source_line_count == report.source.lines
                &&& s.tools == (ToolVersions {
                    rustc: environment.rustc,
                    cargo: environment.cargo,
                    git: environment.git,
                })
            },
            report.git is Some ==> exists|
                h: Result<String, CommandError>,
                m: Result<String, CommandError>,
                c: Result<Option<CommitInfo>, CommandError>,
            |
                #![trigger latest_commit_result(h, m, c)]
                ran(run, verify_head_args(), h) && (h is Ok ==> ran(run, log_args(), m))
                    && latest_commit_result(h, m, c) && match c {
                    Err(e) => r == Err::<Snapshot, CommandError>(e),
                    Ok(None) => r matches Ok(s) && s.latest_commit_hash is None
                        && s.latest_commit_message is None,
                    Ok(Some(info)) => r matches Ok(s) && s.latest_commit_hash == Some(info.hash)
                        && s.latest_commit_message == Some(info.message),
                },
    {
        let (branch, changed) = match &report.git {
            Some(g) => (Some(g.branch.clone()), Some(g.changed_files)),
            None => (None, None),
        };
        let commit = if report.git.is_some() {
            let c = latest_commit(&run);
            match c {
                Ok(found) => found,
                Err(e) => {
                    return Err(e);
                },
            }
        } else {
            None
        };
        let (hash, message) = match commit {
            Some(info) => (Some(info.hash), Some(info.message)),
            None => (None, None),
        };
        Ok(
            Snapshot {
                timestamp,
                working_directory,
                project_name: report.project.name,
                project_type: report.project.language,
                project_version: report.project.version,
                git_branch: branch,
                git_changed_files: changed,
                latest_commit_hash: hash,
                latest_commit_message: message,
                source_file_count: report.source.files,
                source_line_count: report.source.lines,
                tools: ToolVersions {
                    rustc: environment.rustc,
                    cargo: environment.cargo,
                    git: environment.git,
                },
            },
        )
    }

    /// How `new` differs from `old`: the branch and change count where they
    /// changed (a missing count reads as 0), the growth of the source totals,
    /// and the versions that changed.
    pub fn compare(old: &Self, new: &Self) -> (r: SnapshotComparison)
        ensures
            match r.branch {
                Some(b) => opt_text(old.git_branch) != opt_text(new.git_branch) && b.0@ == shown(
                    opt_text(old.git_branch),
                ) && b.1@ == shown(opt_text(new.git_branch)),
                None => opt_text(old.git_branch) == opt_text(new.git_branch),
            },
            r.changed_files == if old.git_changed_files != new.git_changed_files {
                Some(
                    (
                        match old.git_changed_files {
                            Some(n) => n,
                            None => 0usize,
                        },
                        match new.git_changed_files {
                            Some(n) => n,
                            None => 0usize,
                        },
                    ),
                )
            } else {
                None
            },
            r.source_files_difference == new.source_file_count - old.source_file_count,
            r.source_lines_difference == new.source_line_count - old.source_line_count,
            versions_view(r.changed_versions@) == changed_versions_spec(*old, *new),
    {
        let mut changed_versions: Vec<(String, Option<String>, Option<String>)> = Vec::new();
        push_change(&mut changed_versions, "Project", &old.project_version, &new.project_version);
        push_change(&mut changed_versions, "Rustc", &old.tools.rustc, &new.tools.rustc);
        push_change(&mut changed_versions, "Cargo", &old.tools.cargo, &new.tools.cargo);
        push_change(&mut changed_versions, "Git", &old.tools.git, &new.tools.git);
        assert(versions_view(changed_versions@) =~= changed_versions_spec(*old, *new));
        let branch = if !same_option(&old.git_branch, &new.git_branch) {
            Some((display_option(&old.git_branch), display_option(&new.git_branch)))
        } else {
            None
        };
        let same_count = match (old.git_changed_files, new.git_changed_files) {
            (Some(a), Some(b)) => a == b,
            (None, None) => true,
            _ => false,
        };
        let changed_files = if !same_count {
            Some(
                (
                    match old.git_changed_files {
                        Some(n) => n,
                        None => 0,
                    },
                    match new.git_changed_files {
                        Some(n) => n,
                        None => 0,
                    },
                ),
            )
        } else {
            None
        };
        SnapshotComparison {
            branch,
            changed_files,
            source_files_difference: new.source_file_count as i128 - old.source_file_count as i128,
            source_lines_difference: new.source_line_count as i128 - old.source_line_count as i128,
            changed_versions,
        }
    }
}

/// The name of the file that holds the snapshot taken at `timestamp`.
pub fn snapshot_file_name(timestamp: u128) -> (r: String)
    ensures
        r@ == decimal(timestamp as nat) + ".json"@,
{
    let mut r = String::new();
    push_decimal_u128(&mut r, timestamp);
    r.append(".json");
    r
}

/// Whether snapshots are in order newest first.
pub open spec fn newer_first(s: Seq<Snapshot>) -> bool {
    forall|i: int, j: int| 0 <= i < j < s.len() ==> s[i].timestamp >= s[j].timestamp
}

/// The index of the first snapshot in `s` older than `t`, or the length of `s`.
pub open spec fn first_older(s: Seq<Snapshot>, t: u128) -> nat
    decreases s.len(),
{
    if s.len() == 0 {
        0
    } else if s[0].timestamp < t {
        0
    } else {
        first_older(s.drop_first(), t) + 1
    }
}

/// `x` placed in `s` after every snapshot at least as new.
pub open spec fn insert_newest_first(s: Seq<Snapshot>, x: Snapshot) -> Seq<Snapshot> {
    let p = first_older(s, x.timestamp) as int;
    s.take(p) + seq![x] + s.skip(p)
}

/// `s` ordered newest first, keeping the order of snapshots with equal
/// timestamps: each in turn placed after all snapshots at least as new.
pub open spec fn newest_first(s: Seq<Snapshot>) -> Seq<Snapshot>
    decreases s.len(),
{
    if s.len() == 0 {
        s
    } else {
        insert_newest_first(newest_first(s.drop_last()), s.last())
    }
}

proof fn lemma_first_older(s: Seq<Snapshot>, t: u128)
    ensures
        first_older(s, t) <= s.len(),
        forall|k: int| 0 <= k < first_older(s, t) ==> s[k].timestamp >= t,
        first_older(s, t) < s.len() ==> s[first_older(s, t) as int].timestamp < t,
    decreases s.len(),
{
    if s.len() > 0 && s[0].timestamp >= t {
        lemma_first_older(s.drop_first(), t);
        assert forall|k: int| 0 <= k < first_older(s, t) implies s[k].timestamp >= t by {
            if k > 0 {
                assert(s[k] == s.drop_first()[k - 1]);
            }
        }
    }
}

proof fn lemma_insert_keeps_order(s: Seq<Snapshot>, x: Snapshot)
    requires
        newer_first(s),
    ensures
        newer_first(insert_newest_first(s, x)),
        insert_newest_first(s, x).to_multiset() == s.to_multiset().insert(x),
{
    lemma_first_older(s, x.timestamp);
    let p = first_older(s, x.timestamp) as int;
    let r = insert_newest_first(s, x);
    assert forall|i: int, j: int| 0 <= i < j < r.len() implies r[i].timestamp >= r[j].timestamp by {
        if i < p {
            assert(r[i] == s[i]);
        } else if i > p {
            assert(r[i] == s[i - 1]);
        }
        if j < p {
            assert(r[j] == s[j]);
        } else if j > p {
            assert(r[j] == s[j - 1]);
            if i == p && p < s.len() {
                assert(s[p].timestamp < x.timestamp);
                assert(s[j - 1].timestamp <= s[p].timestamp);
            }
        }
    }
    broadcast use vstd::seq_lib::group_to_multiset_ensures, vstd::multiset::group_multiset_axioms;

    let a = s.take(p);
    let b = s.skip(p);
    vstd::seq_lib::lemma_multiset_commutative(a.push(x), b);
    vstd::seq_lib::lemma_multiset_commutative(a, b);
    assert(a + seq![x] == a.push(x));
    assert(a + b == s);
    assert(r == a.push(x) + b);
    assert(r.to_multiset() =~= s.to_multiset().insert(x));
}

/// Ordering newest first yields snapshots in that order, and the same snapshots.
pub proof fn newest_first_is_ordered(s: Seq<Snapshot>)
    ensures
        newer_first(newest_first(s)),
        newest_first(s).to_multiset() == s.to_multiset(),
    decreases s.len(),
{
    broadcast use vstd::seq_lib::group_to_multiset_ensures, vstd::multiset::group_multiset_axioms;

    if s.len() > 0 {
        newest_first_is_ordered(s.drop_last());
        lemma_insert_keeps_order(newest_first(s.drop_last()), s.last());
        assert(s.drop_last().push(s.last()) == s);
    } else {
        assert(s.to_multiset().len() == 0);
        assert(newest_first(s) == s);
    }
}

/// Orders snapshots newest first; snapshots with equal timestamps keep their order.
pub fn order_newest_first(snapshots: Vec<Snapshot>) -> (r: Vec<Snapshot>)
    ensures
        r@ == newest_first(snapshots@),
        newer_first(r@),
        r@.to_multiset() == snapshots@.to_multiset(),
{
    let ghost input = snapshots@;
    let mut rest = snapshots;
    let mut r: Vec<Snapshot> = Vec::new();
    let mut i: usize = 0;
    let n = rest.len();
    assert(input.take(0) == Seq::<Snapshot>::empty());
    assert(input.skip(0) == input);
    while rest.len() > 0
        invariant
            i + rest@.len() == n == input.len(),
            rest@ == input.skip(i as int),
            r@ == newest_first(input.take(i as int)),
        decreases rest.len(),
    {
        let x = rest.remove(0);
        assert(x == input[i as int]);
        assert(rest@ == input.skip(i + 1));
        let t = x.timestamp;
        let ghost before = r@;
        let mut p: usize = 0;
        assert(before.skip(0) == before);
        while p < r.len() && r[p].timestamp >= t
            invariant
                p <= r@.len(),
                r@ == before,
                first_older(before, t) == first_older(before.skip(p as int), t) + p,
            decreases r.len() - p,
        {
            assert(before.skip(p as int).drop_first() == before.skip(p + 1));
            p += 1;
        }
        proof {
            if p == r@.len() {
                assert(before.skip(p as int).len() == 0);
            }
            assert(input.take(i + 1).drop_last() == input.take(i as int));
            assert(input.take(i + 1).last() == x);
        }
        r.insert(p, x);
        assert(r@ =~= insert_newest_first(before, x));
        i += 1;
    }
    assert(input.take(n as int) == input);
    proof {
        newest_first_is_ordered(input);
    }
    r
}

/// The calendar date `(year, month, day)` of the day `days` after 1970-01-01,
/// in the proleptic Gregorian calendar (by 400-year eras of 146097 days).
pub open spec fn civil_from_days(days: int) -> (int, int, int) {
    let z = days + 719468;
    let era = z / 146097;
    let doe = z - era * 146097;
    let yoe = (doe - doe / 1460 + doe / 36524 - doe / 146096) / 365;
    let doy = doe - (365 * yoe + yoe / 4 - yoe / 100);
    let mp = (5 * doy + 2) / 153;
    let d = doy - (153 * mp + 2) / 5 + 1;
    let m = if mp < 10 {
        mp + 3
    } else {
        mp - 9
    };
    let y = yoe + era * 400 + if m <= 2 {
        1int
    } else {
        0int
    };
    (y, m, d)
}

/// `n` zeros.
pub open spec fn zeros(n: int) -> Seq<char>
    decreases n,
{
    if n <= 0 {
        Seq::empty()
    } else {
        zeros(n - 1).push('0')
    }
}

/// `y` as `{:04}` shows it: zero-padded to four characters, a minus sign counted.
pub open spec fn four_digits(y: int) -> Seq<char> {
    if y >= 0 {
        zeros(4 - decimal(y as nat).len()) + decimal(y as nat)
    } else {
        seq!['-'] + zeros(3 - decimal((-y) as nat).len()) + decimal((-y) as nat)
    }
}

/// A millisecond timestamp as `YYYY-MM-DD hh:mm:ss UTC`. The milliseconds are
/// dropped and the seconds taken as an `i64`, as a cast gives them.
pub open spec fn timestamp_text(timestamp: u128) -> Seq<char> {
    let seconds = ((timestamp / 1000) as i64) as int;
    let days = seconds / 86400;
    let time = seconds % 86400;
    let (y, m, d) = civil_from_days(days);
    four_digits(y) + seq!['-'] + two_digits(m as nat) + seq!['-'] + two_digits(d as nat) + seq![' ']
        + two_digits((time / 3600) as nat) + seq![':'] + two_digits((time % 3600 / 60) as nat)
        + seq![':'] + two_digits((time % 60) as nat) + " UTC"@
}

proof fn lemma_decimal_len(n: nat)
    ensures
        decimal(n).len() >= 1,
        n < 10 ==> decimal(n).len() == 1,
        n < 100 ==> decimal(n).len() <= 2,
        n < 1000 ==> decimal(n).len() <= 3,
    decreases n,
{
    if n >= 10 {
        lemma_decimal_len(n / 10);
    }
}

fn push_zeros(s: &mut String, n: usize)
    ensures
        final(s)@ == old(s)@ + zeros(n as int),
{
    let mut i: usize = 0;
    while i < n
        invariant
            i <= n,
            s@ == old(s)@ + zeros(i as int),
        decreases n - i,
    {
        push_char(s, '0');
        i += 1;
    }
}

fn decimal_len(n: u64) -> (r: usize)
    ensures
        r == decimal(n as nat).len(),
    decreases n,
{
    let mut t = String::new();
    push_decimal(&mut t, n);
    crate::text::chars_of(t.as_str()).len()
}

fn push_four_digits(s: &mut String, y: i64)
    ensures
        final(s)@ == old(s)@ + four_digits(y as int),
{
    if y >= 0 {
        let len = decimal_len(y as u64);
        if len < 4 {
            push_zeros(s, 4 - len);
        } else {
            push_zeros(s, 0);
        }
        push_decimal(s, y as u64);
    } else {
        push_char(s, '-');
        let magnitude: u64 = if y == i64::MIN {
            9223372036854775808u64
        } else {
            (-y) as u64
        };
        let len = decimal_len(magnitude);
        if len < 3 {
            push_zeros(s, 3 - len);
        } else {
            push_zeros(s, 0);
        }
        push_decimal(s, magnitude);
        assert(zeros(0) == Seq::<char>::empty());
    }
}

/// A millisecond timestamp as `YYYY-MM-DD hh:mm:ss UTC`.
#[verifier::spinoff_prover]
#[verifier::rlimit(40)]
pub fn format_timestamp(timestamp: u128) -> (r: String)
    ensures
        r@ == timestamp_text(timestamp),
{
    let seconds = (timestamp / 1000) as i64;
    let days = match seconds.checked_div_euclid(86400) {
        Some(d) => d,
        None => 0,
    };
    let time = match seconds.checked_rem_euclid(86400) {
        Some(t) => t,
        None => 0,
    };
    assert(days == seconds / 86400);
    assert(time == seconds % 86400);
    let shifted_days = days + 719468;
    let era = match shifted_days.checked_div_euclid(146097) {
        Some(e) => e,
        None => 0,
    };
    let day_of_era = shifted_days - era * 146097;
    assert(0 <= day_of_era < 146097);
    let year_of_era = (day_of_era - day_of_era / 1460 + day_of_era / 36524 - day_of_era / 146096) / 365;
    let day_of_year = day_of_era - (365 * year_of_era + year_of_era / 4 - year_of_era / 100);
    let month_prime = (5 * day_of_year + 2) / 153;
    let day = day_of_year - (153 * month_prime + 2) / 5 + 1;
    let month = month_prime + if month_prime < 10 {
        3
    } else {
        -9
    };
    let year = year_of_era + era * 400 + if month <= 2 {
        1
    } else {
        0
    };
    let mut r = String::new();
    push_four_digits(&mut r, year);
    push_char(&mut r, '-');
    push_two_digits(&mut r, month as u64);
    push_char(&mut r, '-');
    push_two_digits(&mut r, day as u64);
    push_char(&mut r, ' ');
    push_two_digits(&mut r, (time / 3600) as u64);
    push_char(&mut r, ':');
    push_two_digits(&mut r, (time % 3600 / 60) as u64);
    push_char(&mut r, ':');
    push_two_digits(&mut r, (time % 60) as u64);
    r.append(" UTC");
    r
}


/// A signed difference as shown: a `+` before a positive value, a `-` before a negative one.
pub open spec fn signed_text(v: int) -> Seq<char> {
    if v > 0 {
        seq!['+'] + decimal(v as nat)
    } else if v < 0 {
        seq!['-'] + decimal((-v) as nat)
    } else {
        decimal(0)
    }
}

/// A signed difference as shown: `+` before a positive value.
pub fn format_difference(value: i128) -> (r: String)
    ensures
        r@ == signed_text(value as int),
{
    let mut r = String::new();
    if value > 0 {
        push_char(&mut r, '+');
        push_decimal_u128(&mut r, value as u128);
    } else if value < 0 {
        push_char(&mut r, '-');
        let magnitude: u128 = if value == i128::MIN {
            170141183460469231731687303715884105728u128
        } else {
            (-value) as u128
        };
        push_decimal_u128(&mut r, magnitude);
    } else {
        push_decimal_u128(&mut r, 0);
    }
    r
}

/// The lines that show one saved snapshot.
pub open spec fn saved_lines(s: Snapshot, ui: Ui) -> Seq<Seq<char>> {
    seq![
        info_line(ui, "📸"@, "Snapshot:"@, timestamp_text(s.timestamp)),
        info_line(ui, "📁"@, "Project:"@, s.project_name@ + " ("@ + s.project_type@ + ")"@),
        info_line(
            ui,
            "🌿"@,
            "Git:"@,
            match s.git_branch {
                Some(b) => b@,
                None => "not a repository"@,
            },
        ),
        info_line(
            ui,
            "📏"@,
            "Source:"@,
            decimal(s.source_file_count as nat) + " files · "@ + decimal(s.source_line_count as nat)
                + " lines"@,
        ),
    ]
}

/// The lines of each snapshot of `s` in turn.
pub open spec fn all_saved_lines(s: Seq<Snapshot>, ui: Ui) -> Seq<Seq<char>>
    decreases s.len(),
{
    if s.len() == 0 {
        Seq::empty()
    } else {
        all_saved_lines(s.drop_last(), ui) + saved_lines(s.last(), ui)
    }
}

/// The lines that list saved snapshots.
pub open spec fn list_lines(s: Seq<Snapshot>, ui: Ui) -> Seq<Seq<char>> {
    seq![heading_line(ui, "yoo snapshot — saved snapshots"@)] + if s.len() == 0 {
        seq![info_line(ui, "○"@, "Snapshots:"@, "none saved"@)]
    } else {
        seq![Seq::<char>::empty()] + all_saved_lines(s, ui)
    }
}

/// The line of one changed version.
pub open spec fn version_line(ui: Ui, change: (Seq<char>, Option<Seq<char>>, Option<Seq<char>>)) -> Seq<
    char,
> {
    info_line(ui, "🛠"@, change.0 + " version:"@, shown(change.1) + " → "@ + shown(change.2))
}

/// The lines of the changed versions, in order.
pub open spec fn version_lines(
    changes: Seq<(Seq<char>, Option<Seq<char>>, Option<Seq<char>>)>,
    ui: Ui,
) -> Seq<Seq<char>> {
    changes.map_values(|c: (Seq<char>, Option<Seq<char>>, Option<Seq<char>>)| version_line(ui, c))
}

/// A missing change count read as 0.
pub open spec fn count_or_zero(n: Option<usize>) -> nat {
    match n {
        Some(v) => v as nat,
        None => 0,
    }
}

/// The lines that compare two snapshots.
pub open spec fn compare_lines(old: Snapshot, new: Snapshot, ui: Ui) -> Seq<Seq<char>> {
    seq![
        heading_line(ui, "yoo snapshot — comparison"@),
        info_line(
            ui,
            "📸"@,
            "Snapshots:"@,
            timestamp_text(old.timestamp) + " → "@ + timestamp_text(new.timestamp),
        ),
    ] + (if opt_text(old.git_branch) != opt_text(new.git_branch) {
        seq![
            info_line(
                ui,
                "🌿"@,
                "Git branch:"@,
                shown(opt_text(old.git_branch)) + " → "@ + shown(opt_text(new.git_branch)),
            ),
        ]
    } else {
        Seq::empty()
    }) + (if old.git_changed_files != new.git_changed_files {
        seq![
            info_line(
                ui,
                "✏️"@,
                "Changed files:"@,
                decimal(count_or_zero(old.git_changed_files)) + " → "@ + decimal(
                    count_or_zero(new.git_changed_files),
                ),
            ),
        ]
    } else {
        Seq::empty()
    }) + seq![
        info_line(
            ui,
            "📁"@,
            "Source files:"@,
            signed_text(new.source_file_count - old.source_file_count),
        ),
        info_line(
            ui,
            "📏"@,
            "Source lines:"@,
            signed_text(new.source_line_count - old.source_line_count),
        ),
    ] + version_lines(changed_versions_spec(old, new), ui)
}

/// The lines that show a freshly saved snapshot.
pub fn print_saved(snapshot: &Snapshot, ui: &Ui) -> (r: Vec<String>)
    ensures
        line_views(r@) == saved_lines(*snapshot, *ui),
{
    let mut out: Vec<String> = Vec::new();
    let when = format_timestamp(snapshot.timestamp);
    out.push(ui.info("📸", "Snapshot:", when.as_str()));
    let mut project = snapshot.project_name.clone();
    project.append(" (");
    project.append(snapshot.project_type.as_str());
    project.append(")");
    out.push(ui.info("📁", "Project:", project.as_str()));
    match &snapshot.git_branch {
        Some(b) => out.push(ui.info("🌿", "Git:", b.as_str())),
        None => out.push(ui.info("🌿", "Git:", "not a repository")),
    }
    let mut source = String::new();
    push_decimal(&mut source, snapshot.source_file_count as u64);
    source.append(" files · ");
    push_decimal(&mut source, snapshot.source_line_count as u64);
    source.append(" lines");
    out.push(ui.info("📏", "Source:", source.as_str()));
    assert(line_views(out@) =~= saved_lines(*snapshot, *ui));
    out
}

/// The lines that list saved snapshots, in the order given.
pub fn print_list(snapshots: &Vec<Snapshot>, ui: &Ui) -> (r: Vec<String>)
    ensures
        line_views(r@) == list_lines(snapshots@, *ui),
{
    let mut out: Vec<String> = Vec::new();
    out.push(ui.heading("yoo snapshot — saved snapshots"));
    if snapshots.len() == 0 {
        out.push(ui.info("○", "Snapshots:", "none saved"));
        assert(line_views(out@) =~= list_lines(snapshots@, *ui));
        return out;
    }
    out.push(ui.blank_line());
    let ghost head = line_views(out@);
    let mut i: usize = 0;
    assert(snapshots@.take(0) =~= Seq::<Snapshot>::empty());
    assert(line_views(out@) =~= head + all_saved_lines(snapshots@.take(0), *ui));
    while i < snapshots.len()
        invariant
            i <= snapshots@.len(),
            line_views(out@) == head + all_saved_lines(snapshots@.take(i as int), *ui),
        decreases snapshots.len() - i,
    {
        let lines = print_saved(&snapshots[i], ui);
        push_all(&mut out, lines);
        assert(snapshots@.take(i + 1).drop_last() =~= snapshots@.take(i as int));
        assert(line_views(out@) =~= head + all_saved_lines(snapshots@.take(i + 1), *ui));
        i += 1;
    }
    assert(snapshots@.take(i as int) =~= snapshots@);
    assert(line_views(out@) =~= list_lines(snapshots@, *ui));
    out
}

/// The lines that compare an older snapshot with a newer one.
pub fn print_compare(old: &Snapshot, new: &Snapshot, ui: &Ui) -> (r: Vec<String>)
    ensures
        line_views(r@) == compare_lines(*old, *new, *ui),
{
    let comparison = Snapshot::compare(old, new);
    let mut out: Vec<String> = Vec::new();
    out.push(ui.heading("yoo snapshot — comparison"));
    let mut when = format_timestamp(old.timestamp);
    when.append(" → ");
    let later = format_timestamp(new.timestamp);
    when.append(later.as_str());
    out.push(ui.info("📸", "Snapshots:", when.as_str()));
    if let Some((before, after)) = &comparison.branch {
        let mut t = before.clone();
        t.append(" → ");
        t.append(after.as_str());
        out.push(ui.info("🌿", "Git branch:", t.as_str()));
    }
    if let Some((before, after)) = comparison.changed_files {
        let mut t = String::new();
        push_decimal(&mut t, before as u64);
        t.append(" → ");
        push_decimal(&mut t, after as u64);
        out.push(ui.info("✏️", "Changed files:", t.as_str()));
    }
    let files = format_difference(comparison.source_files_difference);
    out.push(ui.info("📁", "Source files:", files.as_str()));
    let lines = format_difference(comparison.source_lines_difference);
    out.push(ui.info("📏", "Source lines:", lines.as_str()));
    let ghost head = line_views(out@);
    let ghost all = version_lines(changed_versions_spec(*old, *new), *ui);
    let cv = &comparison.changed_versions;
    let mut i: usize = 0;
    assert(line_views(out@) =~= head + all.take(0));
    while i < cv.len()
        invariant
            i <= cv@.len(),
            all == version_lines(versions_view(cv@), *ui),
            line_views(out@) == head + all.take(i as int),
        decreases cv.len() - i,
    {
        let change = &cv[i];
        let mut label = change.0.clone();
        label.append(" version:");
        let mut value = display_option(&change.1);
        value.append(" → ");
        let after = display_option(&change.2);
        value.append(after.as_str());
        let line = ui.info("🛠", label.as_str(), value.as_str());
        assert(line@ == all[i as int]);
        let ghost before_push = out@;
        out.push(line);
        assert(line_views(out@) =~= line_views(before_push).push(line@));
        assert(all.take(i + 1) =~= all.take(i as int).push(all[i as int]));
        i += 1;
    }
    assert(all.take(i as int) =~= all);
    assert(line_views(out@) =~= compare_lines(*old, *new, *ui));
    out
}

/// Whether a file named `name` holds a saved snapshot: its extension is `json`.
pub open spec fn snapshot_name(name: Seq<char>) -> bool {
    extension_of(name) == Some("json"@)
}

/// Whether the file named `name` is read as a saved snapshot.
pub fn is_snapshot_file(name: &str) -> (r: bool)
    ensures
        r == snapshot_name(name@),
{
    match extension(&chars_of(name)) {
        Some(e) => chars_are(&e, "json"),
        None => false,
    }
}

/// The two newest snapshots, the older first, where at least two are saved.
pub fn two_newest(snapshots: Vec<Snapshot>) -> (r: Option<(Snapshot, Snapshot)>)
    ensures
        newest_first(snapshots@).len() == snapshots@.len(),
        snapshots@.len() < 2 ==> r is None,
        snapshots@.len() >= 2 ==> r == Some((newest_first(snapshots@)[1], newest_first(snapshots@)[0])),
{
    let ordered = order_newest_first(snapshots);
    proof {
        ordered@.to_multiset_ensures();
        snapshots@.to_multiset_ensures();
    }
    if ordered.len() < 2 {
        return None;
    }
    let mut ordered = ordered;
    let newest = ordered.remove(0);
    let older = ordered.remove(0);
    Some((older, newest))
}

/// The name of the file that holds a snapshot taken at `timestamp`.
pub open spec fn file_name_at(timestamp: int) -> Seq<char> {
    decimal(timestamp as nat) + ".json"@
}

proof fn lemma_digit(d: nat)
    requires
        d < 10,
    ensures
        digit(d) as u32 == d + 48,
{
    let b = (d + 48) as u8;
    assert(b == d + 48);
    assert((b as char) as u32 == b);
}

proof fn lemma_decimal_injective(a: nat, b: nat)
    requires
        decimal(a) == decimal(b),
    ensures
        a == b,
    decreases a,
{
    lemma_decimal_len(a);
    lemma_decimal_len(b);
    if a < 10 && b >= 10 {
        lemma_decimal_len(b / 10);
        assert(decimal(b).len() >= 2);
    } else if a >= 10 && b < 10 {
        lemma_decimal_len(a / 10);
        assert(decimal(a).len() >= 2);
    } else if a < 10 && b < 10 {
        assert(decimal(a)[0] == digit(a));
        assert(decimal(b)[0] == digit(b));
        lemma_digit(a);
        lemma_digit(b);
    } else {
        assert(decimal(a).drop_last() =~= decimal(a / 10));
        assert(decimal(b).drop_last() =~= decimal(b / 10));
        assert(decimal(a).last() == digit(a % 10));
        assert(decimal(b).last() == digit(b % 10));
        lemma_digit(a % 10);
        lemma_digit(b % 10);
        lemma_decimal_injective(a / 10, b / 10);
    }
}

proof fn lemma_file_name_injective(a: nat, b: nat)
    requires
        file_name_at(a as int) == file_name_at(b as int),
    ensures
        a == b,
{
    let x = file_name_at(a as int);
    assert(x == decimal(a) + ".json"@);
    assert(x == decimal(b) + ".json"@);
    assert(decimal(a).len() == decimal(b).len());
    assert(x.take(decimal(a).len() as int) =~= decimal(a));
    assert(x.take(decimal(b).len() as int) =~= decimal(b));
    lemma_decimal_injective(a, b);
}

/// Among `m` consecutive timestamps from `timestamp`, not all file names can
/// be taken by fewer than `m` existing files.
proof fn lemma_free_name_exists(timestamp: nat, existing: Seq<String>, m: nat)
    requires
        forall|j: int| 0 <= j < m ==> has_name(existing, #[trigger] file_name_at(timestamp + j)),
    ensures
        m <= existing.len(),
{
    let names = Seq::new(m, |j: int| file_name_at(timestamp + j));
    let taken = existing.map_values(|s: String| s@);
    assert(names.no_duplicates()) by {
        assert forall|i: int, j: int| 0 <= i < names.len() && 0 <= j < names.len() && i != j implies names[i]
            != names[j] by {
            if names[i] == names[j] {
                lemma_file_name_injective((timestamp + i) as nat, (timestamp + j) as nat);
            }
        }
    }
    names.unique_seq_to_set();
    assert(names.to_set().subset_of(taken.to_set())) by {
        assert forall|x: Seq<char>| names.to_set().contains(x) implies taken.to_set().contains(x) by {
            let j = choose|j: int| 0 <= j < names.len() && names[j] == x;
            assert(has_name(existing, file_name_at(timestamp + j)));
            let k = choose|k: int| 0 <= k < existing.len() && #[trigger] existing[k]@ == file_name_at(
                timestamp + j,
            );
            assert(taken[k] == x);
        }
    }
    vstd::seq_lib::seq_to_set_is_finite(taken);
    vstd::set_lib::lemma_len_subset(names.to_set(), taken.to_set());
    taken.lemma_cardinality_of_set();
}

/// The name for a snapshot taken at `timestamp` where files named `existing`
/// are already saved: the first of the names for `timestamp`, `timestamp + 1`,
/// ... that is not taken.
pub fn free_snapshot_name(timestamp: u128, existing: &Vec<String>) -> (r: String)
    requires
        timestamp + existing@.len() <= u128::MAX,
    ensures
        exists|k: nat|
            k <= existing@.len() && r@ == #[trigger] file_name_at(timestamp + k) && !has_name(
                existing@,
                r@,
            ) && forall|j: int| 0 <= j < k ==> has_name(existing@, #[trigger] file_name_at(timestamp + j)),
{
    let mut k: u128 = 0;
    loop
        invariant
            k <= existing@.len(),
            timestamp + existing@.len() <= u128::MAX,
            forall|j: int| 0 <= j < k ==> has_name(existing@, #[trigger] file_name_at(timestamp + j)),
        decreases existing@.len() - k,
    {
        let name = snapshot_file_name(timestamp + k);
        if !contains_name(existing, name.as_str()) {
            assert(name@ == file_name_at(timestamp + k));
            return name;
        }
        proof {
            assert(has_name(existing@, file_name_at(timestamp + k)));
            lemma_free_name_exists(timestamp as nat, existing@, (k + 1) as nat);
        }
        k += 1;
    }
}

} // verus!
