//! The session summary that `yoo` shows when run without a command: art,
//! a greeting, a reminder, the project and its Git state, and a send-off.

use vstd::prelude::*;

use crate::args::RunOptions;
use crate::config::Config;
use crate::content::{greeting, greeting_head, greeting_tail, hydration_reminder, pick, reminder};
use crate::git::{
    change_status, change_status_text, inspect, inspect_outcome, inspect_queries, inspect_view,
    GitInfo, GitInfoModel,
};
use crate::process::CommandError;
use crate::text::{trim, trimmed};
use crate::ui::{accent_code, divider_line, heading_line, info_line, painted, Ui, ART};

verus! {

/// One line of output: written at once, or typed out character by character.
#[derive(Debug, Clone, PartialEq, Eq)]
pub enum Line {
    Plain(String),
    Typed(String),
}

/// Whether a line is typed out, and its text.
pub open spec fn line_view(l: Line) -> (bool, Seq<char>) {
    match l {
        Line::Plain(s) => (false, s@),
        Line::Typed(s) => (true, s@),
    }
}

/// Whether a line is typed out, and its text, for each line.
pub open spec fn line_views(v: Seq<Line>) -> Seq<(bool, Seq<char>)> {
    v.map_values(|l: Line| line_view(l))
}

/// The name greeted: the one asked for, else the configured one; trimmed.
pub open spec fn greeted_name(config: Config, options: RunOptions) -> Seq<char> {
    trim(
        match options.name {
            Some(n) => n@,
            None => config.name@,
        },
    )
}

/// The project shown: the directory's name, else `current directory`.
pub open spec fn project_label(directory_name: Option<String>) -> Seq<char> {
    match directory_name {
        Some(n) => n@,
        None => "current directory"@,
    }
}

/// The lines before the Git state.
pub open spec fn summary_head(
    ui: Ui,
    config: Config,
    options: RunOptions,
    directory_name: Option<String>,
    now_nanos: u64,
    pid: u32,
) -> Seq<(bool, Seq<char>)> {
    let g = pick(5, 0xA3, now_nanos, pid) as int;
    (if config.show_art && !options.no_art {
        seq![
            (false, painted(ui.colour_of(), trim_end_art(), accent_code(ui.theme_of()), true)),
            (false, Seq::<char>::empty()),
        ]
    } else {
        Seq::empty()
    }) + seq![
        (false, heading_line(ui, "yoo — developer session starter"@)),
        (true, greeting_head(g) + greeted_name(config, options) + greeting_tail(g)),
        (false, info_line(ui, "💧"@, "Hydration:"@, reminder(pick(3, 0xB7, now_nanos, pid) as int))),
        (false, Seq::<char>::empty()),
        (false, divider_line(ui)),
        (false, info_line(ui, "📁"@, "Project:"@, project_label(directory_name))),
    ]
}

/// The logo as drawn: without its trailing whitespace.
pub open spec fn trim_end_art() -> Seq<char> {
    crate::text::trim_end(ART@)
}

/// The lines of the Git state: branch and working tree, or no repository.
pub open spec fn summary_git(ui: Ui, o: Option<GitInfoModel>) -> Seq<(bool, Seq<char>)> {
    match o {
        Some(info) => seq![
            (false, info_line(ui, "🌿"@, "Git branch:"@, info.branch)),
            (false, info_line(ui, "✏️"@, "Working tree:"@, change_status_text(info.changed_files))),
        ],
        None => seq![(false, info_line(ui, "🌿"@, "Git:"@, "not a repository"@))],
    }
}

/// The send-off, typed out.
pub open spec fn summary_tail() -> Seq<(bool, Seq<char>)> {
    seq![(true, "Go build something fun. 👋"@)]
}

/// `g` is an outcome of inspecting the repository through `run`.
pub open spec fn inspected_by<F: Fn(&[&str]) -> Result<String, CommandError>>(
    run: F,
    g: Result<Option<GitInfo>, CommandError>,
) -> bool {
    exists|
        r1: Result<String, CommandError>,
        r2: Result<String, CommandError>,
        r3: Result<String, CommandError>,
        r4: Result<String, CommandError>,
    |
        #![trigger inspect_outcome(r1, r2, r3, r4)]
        inspect_queries(run, r1, r2, r3, r4) && inspect_view(g) == inspect_outcome(r1, r2, r3, r4)
}

fn push_line(out: &mut Vec<Line>, typed: bool, text: String)
    ensures
        line_views(final(out)@) == line_views(old(out)@).push((typed, text@)),
{
    if typed {
        out.push(Line::Typed(text));
    } else {
        out.push(Line::Plain(text));
    }
    assert(line_views(out@) =~= line_views(old(out)@).push((typed, text@)));
}

/// The lines of the session summary, in `ui`: the greeting and the reminder
/// that the clock reading and process id pick, the project directory's name,
/// and, where the configuration shows Git, the repository's state as `run`
/// (Git, run in the directory) reports it. A Git failure is an error.
pub fn summary<F: Fn(&[&str]) -> Result<String, CommandError>>(
    ui: &Ui,
    config: &Config,
    options: &RunOptions,
    directory_name: Option<String>,
    now_nanos: u64,
    pid: u32,
    run: F,
) -> (r: Result<Vec<Line>, CommandError>)
    requires
        forall|a: &[&str]| #[trigger] call_requires(run, (a,)),
    ensures
        !config.show_git ==> (r matches Ok(v) && line_views(v@) == summary_head(
            *ui,
            *config,
            *options,
            directory_name,
            now_nanos,
            pid,
        ) + summary_tail()),
        config.show_git ==> exists|g: Result<Option<GitInfo>, CommandError>| #[trigger]
            inspected_by(run, g) && match inspect_view(g) {
                Err(e) => r == Err::<Vec<Line>, CommandError>(e),
                Ok(o) => r matches Ok(v) && line_views(v@) == summary_head(
                    *ui,
                    *config,
                    *options,
                    directory_name,
                    now_nanos,
                    pid,
                ) + summary_git(*ui, o) + summary_tail(),
            },
{
    let ghost head = summary_head(*ui, *config, *options, directory_name, now_nanos, pid);
    let mut out: Vec<Line> = Vec::new();
    if config.show_art && !options.no_art {
        push_line(&mut out, false, ui.print_art());
        push_line(&mut out, false, ui.blank_line());
    }
    push_line(&mut out, false, ui.heading("yoo — developer session starter"));
    let name = match &options.name {
        Some(n) => trimmed(n.as_str()),
        None => trimmed(config.name.as_str()),
    };
    push_line(&mut out, true, greeting(name.as_str(), now_nanos, pid));
    let reminder_text = hydration_reminder(now_nanos, pid);
    push_line(&mut out, false, ui.info("💧", "Hydration:", reminder_text.as_str()));
    push_line(&mut out, false, ui.blank_line());
    push_line(&mut out, false, ui.divider());
    let project = match &directory_name {
        Some(n) => n.clone(),
        None => String::from_str("current directory"),
    };
    push_line(&mut out, false, ui.info("📁", "Project:", project.as_str()));
    assert(line_views(out@) =~= head);
    if config.show_git {
        let g = inspect(&run);
        assert(inspected_by(run, g));
        match g {
            Err(e) => {
                return Err(e);
            },
            Ok(Some(info)) => {
                push_line(&mut out, false, ui.info("🌿", "Git branch:", info.branch.as_str()));
                let status = change_status(info.changed_files);
                push_line(&mut out, false, ui.info("✏️", "Working tree:", status.as_str()));
            },
            Ok(None) => {
                push_line(&mut out, false, ui.info("🌿", "Git:", "not a repository"));
            },
        }
        push_line(&mut out, true, String::from_str("Go build something fun. 👋"));
        assert(line_views(out@) =~= head + summary_git(*ui, inspect_view(g)->Ok_0) + summary_tail());
        return Ok(out);
    }
    push_line(&mut out, true, String::from_str("Go build something fun. 👋"));
    assert(line_views(out@) =~= head + summary_tail());
    Ok(out)
}

} // verus!
