use yoo::args::{parse, Command, EditOptions, FetchOptions, ProjectOptions, RunOptions, SessionOptions, SnapshotAction};
use yoo::completions::Shell;

fn values(items: &[&str]) -> Vec<String> {
    items.iter().map(|item| (*item).to_owned()).collect()
}

#[test]
fn no_arguments_runs_with_defaults() {
    assert_eq!(parse(&[]), Ok(Command::Run(RunOptions::default())));
}

#[test]
fn parses_run_options() {
    let arguments = values(&["--fast", "--no-art", "--name", "Nihit", "--theme", "ocean"]);
    let command = parse(&arguments).expect("options should parse");

    assert_eq!(
        command,
        Command::Run(RunOptions {
            fast: true,
            no_art: true,
            plain: false,
            name: Some("Nihit".to_owned()),
            theme: Some("ocean".to_owned()),
        })
    );
}

#[test]
fn parses_fetch_options() {
    let arguments = values(&["fetch", "--no-art", "--plain", "--theme", "nord"]);
    assert_eq!(
        parse(&arguments),
        Ok(Command::Fetch(FetchOptions {
            no_art: true,
            plain: true,
            theme: Some("nord".to_owned()),
            json: false,
        }))
    );
}

#[test]
fn parses_fetch_json() {
    let arguments = values(&["fetch", "--json"]);
    assert_eq!(
        parse(&arguments),
        Ok(Command::Fetch(FetchOptions {
            json: true,
            ..FetchOptions::default()
        }))
    );
}

#[test]
fn parses_project_json() {
    let arguments = values(&["project", "--json"]);
    assert_eq!(
        parse(&arguments),
        Ok(Command::Project(ProjectOptions {
            json: true,
            ..ProjectOptions::default()
        }))
    );
}

#[test]
fn rejects_json_with_display_options() {
    let arguments = values(&["fetch", "--json", "--plain"]);
    assert!(parse(&arguments).is_err());
}

#[test]
fn rejects_project_json_with_display_options() {
    let arguments = values(&["project", "--json", "--no-art"]);
    assert!(parse(&arguments).is_err());
}

#[test]
fn parses_session_minutes() {
    let arguments = values(&["session", "45"]);
    assert_eq!(
        parse(&arguments),
        Ok(Command::Session(SessionOptions { minutes: Some(45) }))
    );
}

#[test]
fn parses_edit_options() {
    assert_eq!(
        parse(&values(&["edit"])),
        Ok(Command::Edit(EditOptions::default()))
    );
    assert_eq!(
        parse(&values(&["edit", "--editor", "cursor"])),
        Ok(Command::Edit(EditOptions {
            editor: Some("cursor".to_owned()),
        }))
    );
    assert!(parse(&values(&["edit", "cursor"])).is_err());
}

#[test]
fn rejects_invalid_session_minutes() {
    let arguments = values(&["session", "0"]);
    assert!(parse(&arguments).is_err());
}

#[test]
fn parses_tip_pack() {
    let arguments = values(&["tip", "rust"]);
    assert_eq!(parse(&arguments), Ok(Command::Tip(Some("rust".to_owned()))));
}

#[test]
fn parses_version_command() {
    assert_eq!(parse(&values(&["version"])), Ok(Command::Version));
    assert_eq!(parse(&values(&["--version"])), Ok(Command::Version));
}

#[test]
fn parses_completion_shell() {
    assert_eq!(
        parse(&values(&["completions", "powershell"])),
        Ok(Command::Completions(Shell::Powershell))
    );
    assert!(parse(&values(&["completions", "unknown"])).is_err());
}

#[test]
fn rejects_unknown_options() {
    let arguments = values(&["--turbo"]);
    assert!(parse(&arguments).is_err());
}

#[test]
fn unknown_project_option_names_the_option() {
    assert_eq!(
        parse(&values(&["project", "--unknown"])),
        Err("unknown project option `--unknown`".to_owned())
    );
}

#[test]
fn parses_snapshot_actions() {
    assert_eq!(parse(&values(&["snapshot"])), Ok(Command::Snapshot(SnapshotAction::Save)));
    assert_eq!(parse(&values(&["snapshot", "list"])), Ok(Command::Snapshot(SnapshotAction::List)));
    assert_eq!(
        parse(&values(&["snapshot", "compare"])),
        Ok(Command::Snapshot(SnapshotAction::Compare))
    );
    assert_eq!(
        parse(&values(&["snapshot", "delete"])),
        Err("usage: yoo snapshot [list|compare]".to_owned())
    );
}

#[test]
fn session_minutes_out_of_range_are_refused_with_the_limits() {
    assert_eq!(
        parse(&values(&["session", "481"])),
        Err("minutes must be between 1 and 480".to_owned())
    );
    assert_eq!(
        parse(&values(&["session", "--minutes", "30"])),
        Ok(Command::Session(SessionOptions { minutes: Some(30) }))
    );
}

#[test]
fn standalone_commands_take_no_arguments() {
    assert_eq!(parse(&values(&["doctor"])), Ok(Command::Doctor));
    assert!(parse(&values(&["doctor", "now"])).is_err());
    assert_eq!(parse(&values(&["tips"])), Ok(Command::Tips));
    assert_eq!(parse(&values(&["-V"])), Ok(Command::Version));
    assert_eq!(parse(&values(&["status", "--json"])), parse(&values(&["fetch", "--json"])));
}
