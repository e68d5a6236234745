use yoo::args::{FetchOptions, RunOptions};
use yoo::config::Config;
use yoo::ui::{ui_for_display, ui_for_fetch, ui_for_run, Theme, Ui};

#[test]
fn parses_known_themes_and_aliases() {
    assert_eq!(Theme::parse("neon"), Some(Theme::Neon));
    assert_eq!(Theme::parse("OCEAN"), Some(Theme::Ocean));
    assert_eq!(Theme::parse("tokyonight"), Some(Theme::TokyoNight));
    assert_eq!(Theme::parse("rose-pine"), Some(Theme::RosePine));
    assert_eq!(Theme::parse("unknown"), None);
}

#[test]
fn painting_depends_on_colour() {
    let coloured = Ui::new(Theme::Neon, true, 0);
    assert_eq!(coloured.heading("Hi"), "\x1b[1;95mHi\x1b[0m");
    assert_eq!(coloured.info("📁", "Project:", "yoo"), "\x1b[1;95m📁 Project:\x1b[0m yoo");
    let plain = Ui::new(Theme::Neon, false, 0);
    assert_eq!(plain.heading("Hi"), "Hi");
    assert_eq!(plain.divider(), "────────────────────────────────────────");
    assert_eq!(plain.blank_line(), "");
    assert!(!plain.print_art().ends_with('\n'));
    assert_eq!(Theme::names().len(), 9);
}

#[test]
fn unknown_themes_list_the_choices() {
    let config = Config::default();
    let error = ui_for_display(&config, Some("purple"), false, 0, true).err().unwrap();
    assert_eq!(
        error,
        "unknown theme `purple`; use one of: neon, ocean, mono, dracula, tokyo-night, gruvbox, nord, rose-pine, catppuccin"
    );
}

#[test]
fn redirected_output_is_plain_and_instant() {
    let config = Config::default();
    let options = RunOptions::default();
    let ui = ui_for_run(&config, &options, false).unwrap();
    assert_eq!(ui.typing_speed_ms(), 0);
    assert_eq!(ui.heading("Hi"), "Hi");
    let terminal = ui_for_run(&config, &options, true).unwrap();
    assert_eq!(terminal.typing_speed_ms(), 12);
    assert_eq!(terminal.heading("Hi"), "\x1b[1;95mHi\x1b[0m");
    let fast = RunOptions { fast: true, ..RunOptions::default() };
    assert_eq!(ui_for_run(&config, &fast, true).unwrap().typing_speed_ms(), 0);
    let fetch = FetchOptions { plain: true, ..FetchOptions::default() };
    assert_eq!(ui_for_fetch(&config, &fetch, true).unwrap().heading("Hi"), "Hi");
}

#[test]
fn display_elsewhere_than_a_terminal_is_plain_and_instant() {
    let config = Config::default();
    let redirected = ui_for_display(&config, Some("dracula"), false, 40, false).unwrap();
    assert_eq!(redirected.heading("Hi"), "Hi");
    assert_eq!(redirected.typing_speed_ms(), 0);
    let terminal = ui_for_display(&config, Some("dracula"), false, 40, true).unwrap();
    assert_eq!(terminal.typing_speed_ms(), 40);
    assert_ne!(terminal.heading("Hi"), "Hi");
}

#[test]
fn art_shows_only_where_configured_and_not_refused() {
    let ui = Ui::new(Theme::Mono, false, 0);
    let config = Config::default();
    let lines = yoo::ui::art_lines(&ui, &config, false);
    assert_eq!(lines.len(), 2);
    assert!(lines[0].contains("██"));
    assert_eq!(lines[1], "");
    assert!(yoo::ui::art_lines(&ui, &config, true).is_empty());
    let hidden = Config { show_art: false, ..Config::default() };
    assert!(yoo::ui::art_lines(&ui, &hidden, false).is_empty());
}
