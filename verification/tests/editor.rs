use yoo::editor::{editor_candidates, select_editor};

#[test]
fn explicit_editor_has_priority() {
    let chosen = select_editor(
        Some("my-editor"),
        Some("configured-editor"),
        None,
        None,
        false,
        |_program: &str| None,
    );
    assert_eq!(chosen, Ok("my-editor".to_owned()));
}

#[test]
fn configured_editor_is_used_without_an_override() {
    let chosen = select_editor(None, Some("configured-editor"), None, None, false, |_program: &str| None);
    assert_eq!(chosen, Ok("configured-editor".to_owned()));
}

#[test]
fn environment_editors_come_next_and_empty_values_are_skipped() {
    let chosen = select_editor(
        None,
        None,
        Some(String::new()),
        Some("nano".to_owned()),
        false,
        |program: &str| if program == "nano" { Some("/usr/bin/nano".to_owned()) } else { None },
    );
    assert_eq!(chosen, Ok("/usr/bin/nano".to_owned()));
}

#[test]
fn the_first_candidate_found_is_used() {
    let chosen = select_editor(None, None, None, None, false, |program: &str| {
        if program == "vim" || program == "vi" {
            Some(format!("/usr/bin/{program}"))
        } else {
            None
        }
    });
    assert_eq!(chosen, Ok("/usr/bin/vim".to_owned()));
    let none = select_editor(None, None, None, None, true, |_program: &str| None);
    assert_eq!(
        none,
        Err("no editor found; set $VISUAL or $EDITOR, or use `yoo edit --editor <EDITOR>`".to_owned())
    );
    assert_eq!(editor_candidates(true), vec!["code", "cursor", "zed", "notepad"]);
}

#[test]
fn an_empty_configured_editor_falls_back_to_the_environment() {
    let chosen = select_editor(None, Some(""), Some("hx".to_owned()), None, false, |_program: &str| None);
    assert_eq!(chosen, Ok("hx".to_owned()));
}
