//! The health checks of `doctor`: one check per tool, the configuration, the
//! project manifest and the repository, and the tallies of their outcomes.

use vstd::prelude::*;

use crate::git::GitInfo;
use crate::process::{error_text, CommandError, ErrorKind};
use crate::text::{decimal, padded, push_decimal, push_padded};

verus! {

/// The outcome of one check.
#[derive(Debug, Clone, Copy, PartialEq, Eq, Structural)]
pub enum Status {
    Pass,
    Warn,
    Fail,
}

/// One check: what was checked, how it went, and the detail shown.
#[derive(Debug, Clone, PartialEq, Eq)]
pub struct Check {
    pub label: &'static str,
    pub status: Status,
    pub detail: String,
}

/// All checks, in the order they ran.
#[derive(Debug, Clone, PartialEq, Eq)]
pub struct Report {
    pub checks: Vec<Check>,
}

/// The statuses of `checks`, in order.
pub open spec fn statuses(checks: Seq<Check>) -> Seq<Status> {
    checks.map_values(|c: Check| c.status)
}

/// The number of entries in `s` equal to `status`.
pub open spec fn count_status(s: Seq<Status>, status: Status) -> nat
    decreases s.len(),
{
    if s.len() == 0 {
        0
    } else {
        count_status(s.drop_last(), status) + if s.last() == status {
            1nat
        } else {
            0nat
        }
    }
}

proof fn lemma_count_status_bound(s: Seq<Status>, status: Status)
    ensures
        count_status(s, status) <= s.len(),
    decreases s.len(),
{
    if s.len() > 0 {
        lemma_count_status_bound(s.drop_last(), status);
    }
}

/// Each check is counted under exactly one status.
pub proof fn lemma_counts_partition(s: Seq<Status>)
    ensures
        count_status(s, Status::Pass) + count_status(s, Status::Warn) + count_status(s, Status::Fail)
            == s.len(),
    decreases s.len(),
{
    if s.len() > 0 {
        lemma_counts_partition(s.drop_last());
    }
}

fn count_of(checks: &Vec<Check>, status: Status) -> (n: usize)
    ensures
        n == count_status(statuses(checks@), status),
{
    let ghost s = statuses(checks@);
    let mut n: usize = 0;
    let mut i: usize = 0;
    while i < checks.len()
        invariant
            i <= checks@.len(),
            s == statuses(checks@),
            n == count_status(s.take(i as int), status),
        decreases checks.len() - i,
    {
        proof {
            lemma_count_status_bound(s.take(i as int), status);
            assert(s.take(i + 1).drop_last() == s.take(i as int));
        }
        if checks[i].status == status {
            n += 1;
        }
        i += 1;
    }
    assert(s.take(checks@.len() as int) == s);
    n
}

impl Report {
    /// The number of passed checks.
    pub fn pass_count(&self) -> (n: usize)
        ensures
            n == count_status(statuses(self.checks@), Status::Pass),
    {
        count_of(&self.checks, Status::Pass)
    }

    /// The number of checks that only warn.
    pub fn warn_count(&self) -> (n: usize)
        ensures
            n == count_status(statuses(self.checks@), Status::Warn),
    {
        count_of(&self.checks, Status::Warn)
    }

    /// The number of failed checks.
    pub fn fail_count(&self) -> (n: usize)
        ensures
            n == count_status(statuses(self.checks@), Status::Fail),
    {
        count_of(&self.checks, Status::Fail)
    }
}

/// The tallies of a report add up to its number of checks.
pub proof fn counts_cover_all_checks(report: Report)
    ensures
        count_status(statuses(report.checks@), Status::Pass) + count_status(
            statuses(report.checks@),
            Status::Warn,
        ) + count_status(statuses(report.checks@), Status::Fail) == report.checks@.len(),
{
    lemma_counts_partition(statuses(report.checks@));
}

/// The detail of a tool check that failed: "not found in PATH" where the
/// program could not be started, else the error with what it wrote to stderr.
pub open spec fn failure_detail(e: CommandError) -> Seq<char> {
    if e.kind == ErrorKind::Io {
        "not found in PATH"@
    } else {
        error_text(e)
    }
}

/// `c` is the check labelled `label` of a tool whose probe gave `outcome`.
pub open spec fn tool_check(c: Check, label: &'static str, outcome: Result<String, CommandError>) -> bool {
    &&& c.label == label
    &&& match outcome {
        Ok(version) => c.status == Status::Pass && c.detail@ == crate::text::trim(version@),
        Err(e) => c.status == Status::Fail && c.detail@ == failure_detail(e),
    }
}

/// The check of a tool, from what running it with `--version` gave: the
/// version it printed, trimmed, or why it failed.
pub fn command_check(label: &'static str, outcome: Result<String, CommandError>) -> (c: Check)
    ensures
        tool_check(c, label, outcome),
{
    match outcome {
        Ok(version) => Check {
            label,
            status: Status::Pass,
            detail: crate::text::trimmed(version.as_str()),
        },
        Err(error) => {
            let detail = if error.kind == ErrorKind::Io {
                String::from_str("not found in PATH")
            } else {
                error.to_string()
            };
            Check { label, status: Status::Fail, detail }
        },
    }
}

/// The configuration check: a warning where no file exists (defaults are in
/// force), a pass where it loads, else a failure with the reason.
pub fn config_check(path: &str, exists: bool, loaded: Result<(), String>) -> (c: Check)
    ensures
        c.label@ == "Yoo config"@,
        !exists ==> c.status == Status::Warn && c.detail@ == "not found; defaults active — run `yoo init` ("@
            + path@ + ")"@,
        exists ==> match loaded {
            Ok(_) => c.status == Status::Pass && c.detail@ == "valid ("@ + path@ + ")"@,
            Err(m) => c.status == Status::Fail && c.detail == m,
        },
{
    if !exists {
        let mut detail = String::from_str("not found; defaults active — run `yoo init` (");
        detail.append(path);
        detail.append(")");
        return Check { label: "Yoo config", status: Status::Warn, detail };
    }
    match loaded {
        Ok(()) => {
            let mut detail = String::from_str("valid (");
            detail.append(path);
            detail.append(")");
            Check { label: "Yoo config", status: Status::Pass, detail }
        },
        Err(message) => Check { label: "Yoo config", status: Status::Fail, detail: message },
    }
}

/// The project check: a pass naming the detected kind and manifest, or a
/// warning where the directory holds no supported manifest.
pub fn project_check(project: &crate::fetch::ProjectInfo) -> (c: Check)
    ensures
        c.label@ == "Project"@,
        match project.manifest {
            Some(m) => c.status == Status::Pass && c.detail@ == project.kind@ + " detected ("@ + m@
                + ")"@,
            None => c.status == Status::Warn && c.detail@
                == "no supported project manifest found in this directory"@,
        },
{
    match &project.manifest {
        Some(manifest) => {
            let mut detail = String::from_str(project.kind.as_str());
            detail.append(" detected (");
            detail.append(manifest.as_str());
            detail.append(")");
            Check { label: "Project", status: Status::Pass, detail }
        },
        None => Check {
            label: "Project",
            status: Status::Warn,
            detail: String::from_str("no supported project manifest found in this directory"),
        },
    }
}

/// The repository check: a pass with the branch and change count, a warning
/// outside a repository, a failure where Git itself failed.
pub fn repository_check(inspected: Result<Option<GitInfo>, CommandError>) -> (c: Check)
    ensures
        c.label@ == "Git repository"@,
        match inspected {
            Ok(Some(info)) => c.status == Status::Pass && c.detail@ == "branch `"@ + info.branch@
                + "`; "@ + decimal(info.changed_files as nat) + " changed file(s)"@,
            Ok(None) => c.status == Status::Warn && c.detail@ == "not a Git repository"@,
            Err(e) => c.status == Status::Fail && c.detail@ == error_text(e),
        },
{
    match inspected {
        Ok(Some(info)) => {
            let mut detail = String::from_str("branch `");
            detail.append(info.branch.as_str());
            detail.append("`; ");
            push_decimal(&mut detail, info.changed_files as u64);
            detail.append(" changed file(s)");
            Check { label: "Git repository", status: Status::Pass, detail }
        },
        Ok(None) => Check {
            label: "Git repository",
            status: Status::Warn,
            detail: String::from_str("not a Git repository"),
        },
        Err(error) => Check { label: "Git repository", status: Status::Fail, detail: error.to_string() },
    }
}

/// The report, from the outcomes of the five tool probes (`rustc`, `cargo`,
/// `git`, `rustfmt`, `cargo clippy`, each with `--version`) and the
/// configuration, project and repository checks, in that order.
pub fn collect(
    rustc: Result<String, CommandError>,
    cargo: Result<String, CommandError>,
    git: Result<String, CommandError>,
    rustfmt: Result<String, CommandError>,
    clippy: Result<String, CommandError>,
    config: Check,
    project: Check,
    repository: Check,
) -> (r: Report)
    ensures
        r.checks@.len() == 8,
        tool_check(r.checks@[0], "Rust compiler", rustc),
        tool_check(r.checks@[1], "Cargo", cargo),
        tool_check(r.checks@[2], "Git", git),
        tool_check(r.checks@[3], "Rustfmt", rustfmt),
        tool_check(r.checks@[4], "Clippy", clippy),
        r.checks@[5] == config,
        r.checks@[6] == project,
        r.checks@[7] == repository,
{
    let mut checks: Vec<Check> = Vec::new();
    checks.push(command_check("Rust compiler", rustc));
    checks.push(command_check("Cargo", cargo));
    checks.push(command_check("Git", git));
    checks.push(command_check("Rustfmt", rustfmt));
    checks.push(command_check("Clippy", clippy));
    checks.push(config);
    checks.push(project);
    checks.push(repository);
    Report { checks }
}


/// The mark of a status.
pub open spec fn status_icon(status: Status) -> Seq<char> {
    match status {
        Status::Pass => "✔"@,
        Status::Warn => "!"@,
        Status::Fail => "✘"@,
    }
}

/// The line of one check: its mark, its label padded to 15 characters, its detail.
pub open spec fn check_line(c: Check) -> Seq<char> {
    status_icon(c.status) + " "@ + padded(c.label@, 15) + " "@ + c.detail@
}

/// The closing advice: all good, usable with warnings, or fix the failures.
pub open spec fn verdict(passed: nat, warned: nat, failed: nat) -> Seq<char> {
    if failed == 0 && warned == 0 {
        "Everything looks good. 🚀"@
    } else if failed == 0 {
        "Usable setup, with a few optional things to improve."@
    } else {
        "Fix the failed checks above, then run `yoo doctor` again."@
    }
}

/// The lines that show a report: a title, one line per check, the tallies and the advice.
pub open spec fn report_lines(r: Report) -> Seq<Seq<char>> {
    let s = statuses(r.checks@);
    let passed = count_status(s, Status::Pass);
    let warned = count_status(s, Status::Warn);
    let failed = count_status(s, Status::Fail);
    seq!["🩺 yoo doctor"@, Seq::<char>::empty()] + r.checks@.map_values(|c: Check| check_line(c))
        + seq![
        Seq::<char>::empty(),
        "Health: "@ + decimal(passed) + " passed, "@ + decimal(warned) + " warning(s), "@ + decimal(
            failed,
        ) + " failed"@,
        verdict(passed, warned, failed),
    ]
}

proof fn lemma_count_positive(s: Seq<Status>, status: Status)
    ensures
        count_status(s, status) > 0 <==> exists|i: int| 0 <= i < s.len() && s[i] == status,
    decreases s.len(),
{
    if s.len() > 0 {
        lemma_count_positive(s.drop_last(), status);
        if count_status(s.drop_last(), status) > 0 {
            let i = choose|i: int| 0 <= i < s.drop_last().len() && s.drop_last()[i] == status;
            assert(s[i] == status);
        }
        if exists|i: int| 0 <= i < s.len() && s[i] == status {
            let i = choose|i: int| 0 <= i < s.len() && s[i] == status;
            if i < s.len() - 1 {
                assert(s.drop_last()[i] == status);
            }
        }
    }
}

/// The closing advice follows the worst outcome among the checks: all good
/// only where every check passed, usable where some check warned and none
/// failed, and fix the failures where any check failed.
pub proof fn verdict_follows_worst_outcome(r: Report)
    ensures
        (forall|i: int| 0 <= i < r.checks@.len() ==> r.checks@[i].status == Status::Pass)
            <==> report_lines(r).last() == "Everything looks good. 🚀"@,
        (exists|i: int| 0 <= i < r.checks@.len() && r.checks@[i].status == Status::Warn) && (forall|
            i: int,
        | 0 <= i < r.checks@.len() ==> r.checks@[i].status != Status::Fail) ==> report_lines(r).last()
            == "Usable setup, with a few optional things to improve."@,
        (exists|i: int| 0 <= i < r.checks@.len() && r.checks@[i].status == Status::Fail) ==> report_lines(
            r,
        ).last() == "Fix the failed checks above, then run `yoo doctor` again."@,
{
    let s = statuses(r.checks@);
    reveal_strlit("Everything looks good. 🚀");
    reveal_strlit("Usable setup, with a few optional things to improve.");
    reveal_strlit("Fix the failed checks above, then run `yoo doctor` again.");
    lemma_count_positive(s, Status::Warn);
    lemma_count_positive(s, Status::Fail);
    assert forall|i: int| 0 <= i < r.checks@.len() implies s[i] == r.checks@[i].status by {}
    if forall|i: int| 0 <= i < r.checks@.len() ==> r.checks@[i].status == Status::Pass {
        assert(count_status(s, Status::Warn) == 0);
        assert(count_status(s, Status::Fail) == 0);
    }
    if exists|i: int| 0 <= i < r.checks@.len() && r.checks@[i].status == Status::Warn {
        let i = choose|i: int| 0 <= i < r.checks@.len() && r.checks@[i].status == Status::Warn;
        assert(s[i] == Status::Warn);
    }
    if exists|i: int| 0 <= i < r.checks@.len() && r.checks@[i].status == Status::Fail {
        let i = choose|i: int| 0 <= i < r.checks@.len() && r.checks@[i].status == Status::Fail;
        assert(s[i] == Status::Fail);
    }
    if exists|i: int| 0 <= i < r.checks@.len() && r.checks@[i].status != Status::Pass {
        let i = choose|i: int| 0 <= i < r.checks@.len() && r.checks@[i].status != Status::Pass;
        assert(s[i] == Status::Warn || s[i] == Status::Fail);
    }
    assert(report_lines(r).last() == verdict(
        count_status(s, Status::Pass),
        count_status(s, Status::Warn),
        count_status(s, Status::Fail),
    ));
}

fn check_line_text(c: &Check) -> (r: String)
    ensures
        r@ == check_line(*c),
{
    let mut r = match c.status {
        Status::Pass => String::from_str("✔"),
        Status::Warn => String::from_str("!"),
        Status::Fail => String::from_str("✘"),
    };
    r.append(" ");
    push_padded(&mut r, c.label, 15);
    r.append(" ");
    r.append(c.detail.as_str());
    r
}

/// The lines that show a report.
pub fn print(report: &Report) -> (r: Vec<String>)
    ensures
        r@.map_values(|s: String| s@) == report_lines(*report),
{
    let mut r: Vec<String> = Vec::new();
    r.push(String::from_str("🩺 yoo doctor"));
    r.push(String::new());
    let checks = &report.checks;
    let mut i: usize = 0;
    while i < checks.len()
        invariant
            i <= checks@.len(),
            r@.map_values(|s: String| s@) == seq!["🩺 yoo doctor"@, Seq::<char>::empty()]
                + checks@.take(i as int).map_values(|c: Check| check_line(c)),
        decreases checks.len() - i,
    {
        let line = check_line_text(&checks[i]);
        let ghost before = r@;
        r.push(line);
        assert(r@.map_values(|s: String| s@) =~= before.map_values(|s: String| s@).push(
            check_line(checks@[i as int]),
        ));
        assert(checks@.take(i + 1).map_values(|c: Check| check_line(c)) =~= checks@.take(
            i as int,
        ).map_values(|c: Check| check_line(c)).push(check_line(checks@[i as int])));
        i += 1;
    }
    assert(checks@.take(i as int) =~= checks@);
    r.push(String::new());
    let passed = report.pass_count();
    let warned = report.warn_count();
    let failed = report.fail_count();
    let mut health = String::from_str("Health: ");
    push_decimal(&mut health, passed as u64);
    health.append(" passed, ");
    push_decimal(&mut health, warned as u64);
    health.append(" warning(s), ");
    push_decimal(&mut health, failed as u64);
    health.append(" failed");
    r.push(health);
    if failed == 0 && warned == 0 {
        r.push(String::from_str("Everything looks good. 🚀"));
    } else if failed == 0 {
        r.push(String::from_str("Usable setup, with a few optional things to improve."));
    } else {
        r.push(String::from_str("Fix the failed checks above, then run `yoo doctor` again."));
    }
    assert(r@.map_values(|s: String| s@) =~= report_lines(*report));
    r
}

/// How `doctor` ends: it fails where any check failed, naming how many;
/// warnings alone do not make it fail.
pub fn doctor_outcome(report: &Report) -> (r: Result<(), String>)
    ensures
        (r is Err) <==> count_status(statuses(report.checks@), Status::Fail) > 0,
        r matches Err(m) ==> m@ == decimal(count_status(statuses(report.checks@), Status::Fail))
            + " doctor check(s) failed"@,
{
    let failed = report.fail_count();
    if failed > 0 {
        let mut m = String::new();
        push_decimal(&mut m, failed as u64);
        m.append(" doctor check(s) failed");
        Err(m)
    } else {
        Ok(())
    }
}

} // verus!
