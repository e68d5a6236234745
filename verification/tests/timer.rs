use yoo::timer::{
    finish_lines, format_duration, remaining_line, session_minutes, start_line, validate_minutes,
    DEFAULT_MINUTES, MAX_MINUTES, MIN_MINUTES,
};

#[test]
fn formats_a_duration() {
    assert_eq!(format_duration(65), "01:05");
    assert_eq!(format_duration(3_600), "60:00");
}

#[test]
fn rejects_invalid_minutes() {
    assert!(validate_minutes(0).is_err());
    assert!(validate_minutes(481).is_err());
    assert!(validate_minutes(25).is_ok());
}

#[test]
fn limits_are_inclusive_and_the_message_names_them() {
    assert!(validate_minutes(MIN_MINUTES).is_ok());
    assert!(validate_minutes(MAX_MINUTES).is_ok());
    assert_eq!(validate_minutes(0), Err("minutes must be between 1 and 480".to_owned()));
}

#[test]
fn session_length_defaults_and_is_checked() {
    assert_eq!(session_minutes(None), Ok(DEFAULT_MINUTES));
    assert_eq!(session_minutes(Some(45)), Ok(45));
    assert!(session_minutes(Some(1_000)).is_err());
}

#[test]
fn session_lines() {
    assert_eq!(
        start_line(25),
        "🍅 Local coding session started for 25 minute(s). Press Ctrl+C to stop it."
    );
    assert_eq!(remaining_line(1_500, 1_435), Some("\r⏳ Session remaining: 01:05 ".to_owned()));
    assert_eq!(remaining_line(1_500, 1_500), None);
    assert_eq!(finish_lines(false).len(), 1);
    assert_eq!(finish_lines(true).len(), 2);
    assert_eq!(format_duration(0), "00:00");
    assert_eq!(format_duration(6_000 * 60), "6000:00");
}
