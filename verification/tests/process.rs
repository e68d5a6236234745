use yoo::process::{describe, failure_of, watch_step, CommandError, ErrorKind, Finish, Poll, OUTPUT_LIMIT};

#[test]
fn errors_read_with_their_command_and_stderr() {
    let error = CommandError {
        kind: ErrorKind::Failed,
        command: "rustc --version".into(),
        message: "exited with exit status: 7".into(),
        stdout: String::new(),
        stderr: "compiler broken\n".into(),
        exit_code: Some(7),
    };
    assert_eq!(error.to_string(), "rustc --version: exited with exit status: 7: compiler broken");
}

#[test]
fn describes_commands() {
    assert_eq!(
        describe("git", &vec!["status".to_owned(), "--porcelain=v1".to_owned()]),
        "git status --porcelain=v1"
    );
    assert_eq!(describe("ls", &vec![]), "ls ");
}

#[test]
fn decides_how_a_command_failed() {
    let ok = Finish::Exited { success: true, status: "exit status: 0".into() };
    assert_eq!(failure_of(&ok, false, false, &Some("denied".into())), None);
    assert_eq!(
        failure_of(&ok, true, false, &None),
        Some((ErrorKind::OutputLimit, "output exceeded 8 MiB per stream".into()))
    );
    let failed = Finish::Exited { success: false, status: "exit status: 7".into() };
    assert_eq!(
        failure_of(&failed, false, false, &None),
        Some((ErrorKind::Failed, "exited with exit status: 7".into()))
    );
    assert_eq!(
        failure_of(&Finish::TimedOut(5_000), false, false, &Some("denied".into())),
        Some((ErrorKind::Timeout, "timed out after 5000 ms; process cleanup failed: denied".into()))
    );
    assert_eq!(
        failure_of(&Finish::WaitFailed("gone".into()), false, false, &Some("x".into())),
        Some((ErrorKind::Io, "gone".into()))
    );
}

#[test]
fn watching_stops_at_exit_deadline_or_output_limit() {
    let exited = Poll::Exited { success: true, status: "exit status: 0".into() };
    assert_eq!(
        watch_step(exited, true, Ok((0, 0)), 5_000),
        Some(Finish::Exited { success: true, status: "exit status: 0".into() })
    );
    assert_eq!(watch_step(Poll::Running, true, Ok((0, 0)), 5_000), Some(Finish::TimedOut(5_000)));
    assert_eq!(watch_step(Poll::Running, false, Ok((OUTPUT_LIMIT + 1, 0)), 5_000), Some(Finish::OutputTooLarge));
    assert_eq!(watch_step(Poll::Running, false, Ok((OUTPUT_LIMIT, 0)), 5_000), None);
    assert_eq!(
        watch_step(Poll::Running, false, Err("gone".into()), 5_000),
        Some(Finish::WaitFailed("gone".into()))
    );
    assert_eq!(
        watch_step(Poll::WaitFailed("no".into()), false, Ok((0, 0)), 5_000),
        Some(Finish::WaitFailed("no".into()))
    );
}
