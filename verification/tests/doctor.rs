use yoo::doctor::{command_check, doctor_outcome, print, project_check, repository_check, Check, Report, Status};
use yoo::fetch::{detect_project, ProjectInfo, ProjectProbe};
use yoo::git::GitInfo;
use yoo::process::{CommandError, ErrorKind};

fn error(kind: ErrorKind, stderr: &str) -> CommandError {
    CommandError {
        kind,
        command: "rustc".into(),
        message: "exited with status 7".into(),
        stdout: String::new(),
        stderr: stderr.into(),
        exit_code: Some(7),
    }
}

#[test]
fn report_counts_statuses() {
    let report = Report {
        checks: vec![
            Check {
                label: "A",
                status: Status::Pass,
                detail: String::new(),
            },
            Check {
                label: "B",
                status: Status::Warn,
                detail: String::new(),
            },
            Check {
                label: "C",
                status: Status::Fail,
                detail: String::new(),
            },
        ],
    };

    assert_eq!(report.pass_count(), 1);
    assert_eq!(report.warn_count(), 1);
    assert_eq!(report.fail_count(), 1);
}

#[test]
fn tool_checks_pass_with_a_version_and_fail_with_the_reason() {
    let passed = command_check("Rust", Ok("rustc 1.80.0\n".into()));
    assert_eq!(passed.status, Status::Pass);
    assert_eq!(passed.detail, "rustc 1.80.0");
    let missing = command_check("Rust", Err(error(ErrorKind::Io, "")));
    assert_eq!(missing.status, Status::Fail);
    assert_eq!(missing.detail, "not found in PATH");
    let broken = command_check("Rust", Err(error(ErrorKind::Failed, "compiler broken\n")));
    assert_eq!(broken.status, Status::Fail);
    assert!(broken.detail.contains("compiler broken"));
}

#[test]
fn project_check_detects_non_rust_projects() {
    let probe = ProjectProbe {
        directory: "/tmp/yoo-doctor-node".into(),
        directory_name: Some("yoo-doctor-node".into()),
        cargo_toml: None,
        package_json: Some("{}".into()),
        pyproject_toml: false,
        go_mod: None,
        pom_xml: false,
        build_gradle: false,
        build_gradle_kts: false,
        entries: vec!["package.json".into()],
    };
    let check = project_check(&detect_project(&probe));
    assert_eq!(check.label, "Project");
    assert_eq!(check.status, Status::Pass);
    assert_eq!(check.detail, "Node.js detected (package.json)");
}

#[test]
fn repository_check_warns_outside_a_repository_and_fails_on_errors() {
    let outside = repository_check(Ok(None));
    assert_eq!(outside.status, Status::Warn);
    let inside = repository_check(Ok(Some(GitInfo {
        branch: "main".into(),
        changed_files: 0,
    })));
    assert_eq!(inside.status, Status::Pass);
    let failed = repository_check(Err(error(ErrorKind::Timeout, "")));
    assert_eq!(failed.status, Status::Fail);
}

#[test]
fn printed_report_ends_with_tallies_and_advice() {
    let report = Report {
        checks: vec![
            Check {
                label: "Rust",
                status: Status::Pass,
                detail: "rustc 1".into(),
            },
            Check {
                label: "Git",
                status: Status::Fail,
                detail: "broken".into(),
            },
        ],
    };
    let lines = print(&report);
    assert_eq!(lines[0], "🩺 yoo doctor");
    assert_eq!(lines[1], "");
    assert_eq!(lines[2], "✔ Rust            rustc 1");
    assert_eq!(lines[3], "✘ Git             broken");
    assert_eq!(lines[4], "");
    assert_eq!(lines[5], "Health: 1 passed, 0 warning(s), 1 failed");
    assert_eq!(lines[6], "Fix the failed checks above, then run `yoo doctor` again.");
    let good = Report { checks: vec![] };
    assert_eq!(print(&good)[4], "Everything looks good. 🚀");
}

#[test]
fn project_check_warns_without_a_manifest() {
    let project = ProjectInfo {
        name: "notes".into(),
        kind: "Generic directory".into(),
        manifest: None,
        version: None,
        directory: "/tmp/notes".into(),
    };
    let check = project_check(&project);
    assert_eq!(check.status, Status::Warn);
    assert_eq!(check.detail, "no supported project manifest found in this directory");
}

#[test]
fn config_check_reports_missing_valid_and_broken_files() {
    let missing = yoo::doctor::config_check("/c/config.toml", false, Ok(()));
    assert_eq!(missing.status, Status::Warn);
    assert_eq!(missing.detail, "not found; defaults active — run `yoo init` (/c/config.toml)");
    let valid = yoo::doctor::config_check("/c/config.toml", true, Ok(()));
    assert_eq!(valid.status, Status::Pass);
    assert_eq!(valid.detail, "valid (/c/config.toml)");
    let broken = yoo::doctor::config_check("/c/config.toml", true, Err("line 1: bad".into()));
    assert_eq!(broken.status, Status::Fail);
    assert_eq!(broken.detail, "line 1: bad");
}

#[test]
fn doctor_fails_only_on_failed_checks() {
    let warn = Report {
        checks: vec![Check { label: "Git repository", status: Status::Warn, detail: String::new() }],
    };
    assert_eq!(doctor_outcome(&warn), Ok(()));
    let failed = Report {
        checks: vec![
            Check { label: "Rust compiler", status: Status::Fail, detail: String::new() },
            Check { label: "Cargo", status: Status::Fail, detail: String::new() },
        ],
    };
    assert_eq!(doctor_outcome(&failed), Err("2 doctor check(s) failed".to_owned()));
}
