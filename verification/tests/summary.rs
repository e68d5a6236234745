use yoo::args::RunOptions;
use yoo::config::Config;
use yoo::process::{CommandError, ErrorKind};
use yoo::summary::{summary, Line};
use yoo::ui::{Theme, Ui};

fn plain() -> Ui {
    Ui::new(Theme::Neon, false, 0)
}

#[test]
fn summary_greets_and_shows_git() {
    let config = Config { show_art: false, ..Config::default() };
    let options = RunOptions { name: Some(" Ada ".into()), ..RunOptions::default() };
    let lines = summary(&plain(), &config, &options, Some("rocket".into()), 0, 0, |args: &[&str]| {
        Ok(match args[0] {
            "status" => " M src/main.rs\0".to_owned(),
            _ => "main".to_owned(),
        })
    })
    .unwrap();
    assert_eq!(
        lines,
        vec![
            Line::Plain("yoo — developer session starter".into()),
            Line::Typed("Welcome back, Ada. Make something awesome. 🦀".into()),
            Line::Plain("💧 Hydration: Drink some water before the bug drinks your sanity.".into()),
            Line::Plain(String::new()),
            Line::Plain("────────────────────────────────────────".into()),
            Line::Plain("📁 Project: rocket".into()),
            Line::Plain("🌿 Git branch: main".into()),
            Line::Plain("✏️ Working tree: 1 changed file(s)".into()),
            Line::Typed("Go build something fun. 👋".into()),
        ]
    );
}

#[test]
fn summary_without_git_never_asks_git() {
    let config = Config { show_git: false, ..Config::default() };
    let lines = summary(&plain(), &config, &RunOptions::default(), None, 0, 0, |_args: &[&str]| {
        panic!("git must not run")
    })
    .unwrap();
    assert!(matches!(&lines[0], Line::Plain(art) if art.contains("██")));
    assert_eq!(lines[1], Line::Plain(String::new()));
    assert!(lines.contains(&Line::Plain("📁 Project: current directory".into())));
    assert_eq!(lines.last(), Some(&Line::Typed("Go build something fun. 👋".into())));
}

#[test]
fn summary_reports_git_failures() {
    let failure = CommandError {
        kind: ErrorKind::Timeout,
        command: "git status".into(),
        message: "timed out".into(),
        stdout: String::new(),
        stderr: String::new(),
        exit_code: None,
    };
    let result = summary(&plain(), &Config::default(), &RunOptions::default(), None, 0, 0, |_args: &[&str]| {
        Err(failure.clone())
    });
    assert_eq!(result, Err(failure));
}
