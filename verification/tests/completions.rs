use yoo::completions::{script, Shell, BASH, POWERSHELL};

const COMMANDS: &str =
    "init config doctor edit fetch status project session tip tips completions version help";
const DISPLAY_OPTIONS: &str = "--json --no-art --plain --theme";
const RUN_OPTIONS: &str = "--fast --no-art --plain --name --theme -h --help -V --version";

#[test]
fn every_completion_contains_all_commands() {
    for shell in [Shell::Bash, Shell::Zsh, Shell::Fish, Shell::Powershell] {
        let generated = script(shell);
        for command in COMMANDS.split_whitespace() {
            assert!(
                generated.contains(command),
                "{shell:?} is missing {command}"
            );
        }
    }
}

#[test]
fn completion_option_lists_match_the_cli() {
    for option in DISPLAY_OPTIONS.split_whitespace() {
        assert!(BASH.contains(option));
        assert!(POWERSHELL.contains(option));
    }
    for option in RUN_OPTIONS.split_whitespace() {
        assert!(BASH.contains(option));
        assert!(POWERSHELL.contains(option));
    }
}

#[test]
fn shells_are_named_in_any_case_and_each_script_has_its_marker() {
    assert_eq!(Shell::parse("bash"), Some(Shell::Bash));
    assert_eq!(Shell::parse("PowerShell"), Some(Shell::Powershell));
    assert_eq!(Shell::parse("tcsh"), None);
    for (shell, marker) in [
        (Shell::Bash, "complete -F _yoo yoo"),
        (Shell::Zsh, "#compdef yoo"),
        (Shell::Fish, "complete -c yoo"),
        (Shell::Powershell, "Register-ArgumentCompleter"),
    ] {
        assert!(script(shell).contains(marker));
    }
}

#[test]
fn every_completion_offers_snapshot_actions() {
    for shell in [Shell::Bash, Shell::Zsh, Shell::Fish, Shell::Powershell] {
        let generated = script(shell);
        assert!(generated.contains("snapshot"));
        assert!(generated.contains("compare"));
    }
}
