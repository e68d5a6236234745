use yoo::git::{change_status, commit_count, count_changed, inspect, inspect_with, latest_commit, latest_tag};
use yoo::process::{CommandError, ErrorKind};

fn failure(kind: ErrorKind, stderr: &str, exit_code: Option<i32>) -> CommandError {
    CommandError {
        kind,
        command: "git".into(),
        message: "test failure".into(),
        stdout: String::new(),
        stderr: stderr.into(),
        exit_code,
    }
}

#[test]
fn failures_and_timeouts_are_not_clean_or_non_repositories() {
    for kind in [ErrorKind::Failed, ErrorKind::Timeout] {
        for failing_command in ["rev-parse", "symbolic-ref", "status"] {
            let expected = CommandError {
                kind,
                command: "git".into(),
                message: "test failure".into(),
                stdout: String::new(),
                stderr: "broken".into(),
                exit_code: Some(128),
            };
            let result = inspect_with(|args: &[&str]| {
                if args[0] == failing_command {
                    Err(expected.clone())
                } else {
                    Ok("main".into())
                }
            });
            assert_eq!(result.unwrap_err(), expected);
        }
    }
}

#[test]
fn counts_paths_with_newlines_and_rename_records() {
    let report = inspect_with(|args: &[&str]| {
        Ok(match args[0] {
            "status" => "R  new\nname\0old\nname\0?? other\nfile\0",
            _ => "main",
        }
        .into())
    })
    .unwrap()
    .unwrap();
    assert_eq!(report.changed_files, 2);
}

#[test]
fn formats_change_status() {
    assert_eq!(change_status(0), "clean");
    assert_eq!(change_status(3), "3 changed file(s)");
}

#[test]
fn outside_a_repository_there_is_no_git_information() {
    let result = inspect(|args: &[&str]| {
        if args[0] == "rev-parse" {
            Err(failure(
                ErrorKind::Failed,
                "fatal: not a git repository (or any of the parent directories): .git",
                Some(128),
            ))
        } else {
            Ok("main".into())
        }
    });
    assert_eq!(result, Ok(None));
}

#[test]
fn a_detached_head_shows_the_abbreviated_commit() {
    let info = inspect(|args: &[&str]| match args[0] {
        "symbolic-ref" => Err(failure(ErrorKind::Failed, "", Some(1))),
        "rev-parse" if args.len() == 3 => Ok("abc1234".into()),
        "status" => Ok(String::new()),
        _ => Ok(".git".into()),
    })
    .unwrap()
    .unwrap();
    assert_eq!(info.branch, "abc1234");
    assert_eq!(info.changed_files, 0);
}

#[test]
fn counts_status_records() {
    assert_eq!(count_changed(""), 0);
    assert_eq!(count_changed(" M a.rs\0?? b.rs\0"), 2);
    assert_eq!(count_changed("R  new\0old\0"), 1);
}

#[test]
fn commit_count_tag_and_latest_commit() {
    assert_eq!(
        commit_count(|args: &[&str]| match args[0] {
            "rev-list" => Ok("42".into()),
            _ => Ok("abc".into()),
        }),
        Ok(Some(42))
    );
    assert_eq!(
        commit_count(|_args: &[&str]| Err(failure(ErrorKind::Failed, "", Some(1)))),
        Ok(None)
    );
    assert_eq!(latest_tag(|_args: &[&str]| Ok(" v1.2.0 \n".into())), Ok(Some("v1.2.0".into())));
    let commit = latest_commit(|args: &[&str]| match args[0] {
        "log" => Ok("Initial commit".into()),
        _ => Ok("abc1234def".into()),
    })
    .unwrap()
    .unwrap();
    assert_eq!(commit.hash, "abc1234def");
    assert_eq!(commit.message, "Initial commit");
}

#[test]
fn rename_marks_are_read_from_the_first_two_bytes() {
    assert_eq!(count_changed("éR x\0y\0"), 2);
    assert_eq!(count_changed("AR new\0old\0"), 1);
}
