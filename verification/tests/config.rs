use yoo::config::{config_dir, parse, validate, Config, DEFAULT_CONFIG};

#[test]
fn parses_a_valid_config() {
    let config = parse(
        r#"
                name = "Nihit"
                theme = "ocean"
                typing_speed_ms = 0
                show_art = false
                show_git = true
            "#,
    )
    .expect("config should parse");

    assert_eq!(config.name, "Nihit");
    assert_eq!(config.theme, "ocean");
    assert_eq!(config.typing_speed_ms, 0);
    assert!(!config.show_art);
    assert!(config.show_git);
}

#[test]
fn rejects_an_unknown_theme() {
    let error = parse("theme = \"purple\"").expect_err("theme should be rejected");
    assert!(error.to_string().contains("neon, ocean, mono"));
}

#[test]
fn the_default_file_reads_as_the_defaults() {
    let config = parse(DEFAULT_CONFIG).expect("the default file should parse");
    assert_eq!(config, Config::default());
    assert_eq!(config.name, "developer");
    assert_eq!(config.theme, "neon");
    assert_eq!(config.typing_speed_ms, 12);
    assert!(validate(&config).is_ok());
}

#[test]
fn empty_text_gives_the_defaults() {
    assert_eq!(parse(""), Ok(Config::default()));
}

#[test]
fn refuses_a_slow_typing_speed() {
    let error = parse("typing_speed_ms = 251").expect_err("speed should be rejected");
    assert_eq!(error.to_string(), "typing_speed_ms must be between 0 and 250");
}

#[test]
fn config_directory_follows_the_platform() {
    let here = || "/work".to_owned();
    assert_eq!(
        config_dir("linux", Some("/x".to_owned()), None, Some("/home/me".to_owned()), here()),
        vec!["/x".to_owned(), "yoo".to_owned()]
    );
    assert_eq!(
        config_dir("linux", None, None, Some("/home/me".to_owned()), here()),
        vec!["/home/me".to_owned(), ".config".to_owned(), "yoo".to_owned()]
    );
    assert_eq!(
        config_dir("macos", Some("/x".to_owned()), None, Some("/Users/me".to_owned()), here()),
        vec![
            "/Users/me".to_owned(),
            "Library".to_owned(),
            "Application Support".to_owned(),
            "yoo".to_owned()
        ]
    );
    assert_eq!(
        config_dir("windows", None, Some("C:\\Users\\me".to_owned()), None, here()),
        vec!["C:\\Users\\me".to_owned(), ".config".to_owned(), "yoo".to_owned()]
    );
    assert_eq!(config_dir("windows", None, None, None, here()), vec!["/work".to_owned(), ".yoo".to_owned()]);
}

#[test]
fn every_offered_theme_can_be_configured() {
    let config = parse("theme = \"Dracula\"").expect("dracula should be accepted");
    assert_eq!(config.theme, "dracula");
    assert!(validate(&Config { theme: "tokyo-night".into(), ..Config::default() }).is_ok());
    assert!(validate(&Config { theme: "rose-pine".into(), typing_speed_ms: 251, ..Config::default() }).is_err());
    let error = parse("theme = \"purple\"").expect_err("purple should be rejected");
    assert_eq!(
        error.to_string(),
        "theme must be one of: neon, ocean, mono, dracula, tokyo-night, gruvbox, nord, rose-pine, catppuccin"
    );
}
