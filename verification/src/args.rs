//! Command-line parsing: the list of arguments after the program name, read
//! into the command to run, or the message that explains why it was refused.

use vstd::prelude::*;
use vstd::slice::slice_subrange;

use crate::completions::{shell_named, Shell};
use crate::text::{parse_u64, parse_u64_text, same_text, starts_with, trim, trimmed};
use crate::timer::{minutes_range_message, MAX_MINUTES, MIN_MINUTES};

verus! {

/// Options of the default command (the session greeting).
#[derive(Debug, Clone, Default, PartialEq, Eq)]
pub struct RunOptions {
    pub fast: bool,
    pub no_art: bool,
    pub plain: bool,
    pub name: Option<String>,
    pub theme: Option<String>,
}

/// Options of `fetch` and `status`.
#[derive(Debug, Clone, Default, PartialEq, Eq)]
pub struct FetchOptions {
    pub no_art: bool,
    pub plain: bool,
    pub theme: Option<String>,
    pub json: bool,
}

/// Options of `project`.
#[derive(Debug, Clone, Default, PartialEq, Eq)]
pub struct ProjectOptions {
    pub no_art: bool,
    pub plain: bool,
    pub theme: Option<String>,
    pub json: bool,
}

/// Options of `session`.
#[derive(Debug, Clone, Default, PartialEq, Eq)]
pub struct SessionOptions {
    pub minutes: Option<u64>,
}

/// Options of `edit`.
#[derive(Debug, Clone, Default, PartialEq, Eq)]
pub struct EditOptions {
    pub editor: Option<String>,
}

/// What `snapshot` does: save a snapshot, list the saved ones, or compare the two newest.
#[derive(Debug, Clone, Copy, PartialEq, Eq, Structural)]
pub enum SnapshotAction {
    Save,
    List,
    Compare,
}

/// A command line, read.
#[derive(Debug, Clone, PartialEq, Eq)]
pub enum Command {
    Run(RunOptions),
    Init,
    ConfigPath,
    Doctor,
    Edit(EditOptions),
    Fetch(FetchOptions),
    Project(ProjectOptions),
    Snapshot(SnapshotAction),
    Session(SessionOptions),
    Tip(Option<String>),
    Tips,
    Completions(Shell),
    Help,
    Version,
}

/// `RunOptions` with texts as character sequences.
pub struct RunModel {
    pub fast: bool,
    pub no_art: bool,
    pub plain: bool,
    pub name: Option<Seq<char>>,
    pub theme: Option<Seq<char>>,
}

/// `FetchOptions` and `ProjectOptions` with texts as character sequences.
pub struct DisplayModel {
    pub no_art: bool,
    pub plain: bool,
    pub theme: Option<Seq<char>>,
    pub json: bool,
}

/// `Command` with texts as character sequences.
pub enum CommandModel {
    Run(RunModel),
    Init,
    ConfigPath,
    Doctor,
    Edit(Option<Seq<char>>),
    Fetch(DisplayModel),
    Project(DisplayModel),
    Snapshot(SnapshotAction),
    Session(Option<u64>),
    Tip(Option<Seq<char>>),
    Tips,
    Completions(Shell),
    Help,
    Version,
}

/// The characters of an optional text.
pub open spec fn opt_view(o: Option<String>) -> Option<Seq<char>> {
    match o {
        Some(s) => Some(s@),
        None => None,
    }
}

impl View for RunOptions {
    type V = RunModel;

    open spec fn view(&self) -> RunModel {
        RunModel {
            fast: self.fast,
            no_art: self.no_art,
            plain: self.plain,
            name: opt_view(self.name),
            theme: opt_view(self.theme),
        }
    }
}

impl View for FetchOptions {
    type V = DisplayModel;

    open spec fn view(&self) -> DisplayModel {
        DisplayModel {
            no_art: self.no_art,
            plain: self.plain,
            theme: opt_view(self.theme),
            json: self.json,
        }
    }
}

impl View for ProjectOptions {
    type V = DisplayModel;

    open spec fn view(&self) -> DisplayModel {
        DisplayModel {
            no_art: self.no_art,
            plain: self.plain,
            theme: opt_view(self.theme),
            json: self.json,
        }
    }
}

impl View for Command {
    type V = CommandModel;

    open spec fn view(&self) -> CommandModel {
        match self {
            Command::Run(o) => CommandModel::Run(o@),
            Command::Init => CommandModel::Init,
            Command::ConfigPath => CommandModel::ConfigPath,
            Command::Doctor => CommandModel::Doctor,
            Command::Edit(o) => CommandModel::Edit(opt_view(o.editor)),
            Command::Fetch(o) => CommandModel::Fetch(o@),
            Command::Project(o) => CommandModel::Project(o@),
            Command::Snapshot(a) => CommandModel::Snapshot(*a),
            Command::Session(o) => CommandModel::Session(o.minutes),
            Command::Tip(p) => CommandModel::Tip(opt_view(*p)),
            Command::Tips => CommandModel::Tips,
            Command::Completions(s) => CommandModel::Completions(*s),
            Command::Help => CommandModel::Help,
            Command::Version => CommandModel::Version,
        }
    }
}

/// The characters of each argument.
pub open spec fn arg_views(arguments: Seq<String>) -> Seq<Seq<char>> {
    arguments.map_values(|s: String| s@)
}

/// Run options with every flag off and no value given.
pub open spec fn no_run_options() -> RunModel {
    RunModel { fast: false, no_art: false, plain: false, name: None, theme: None }
}

/// Display options with every flag off and no theme.
pub open spec fn no_display_options() -> DisplayModel {
    DisplayModel { no_art: false, plain: false, theme: None, json: false }
}

/// A command word that must stand alone.
pub open spec fn standalone_spec(args: Seq<Seq<char>>, command: CommandModel) -> Result<
    CommandModel,
    Seq<char>,
> {
    if args.len() == 1 {
        Ok(command)
    } else {
        Err("`"@ + args[0] + "` cannot be combined with other options"@)
    }
}

/// The value of `flag` at `args[index]`, trimmed, which must exist and not be blank.
pub open spec fn required_spec(args: Seq<Seq<char>>, index: int, flag: Seq<char>) -> Result<
    Seq<char>,
    Seq<char>,
> {
    if index < 0 || index >= args.len() {
        Err(flag + " needs a value"@)
    } else if trim(args[index]).len() == 0 {
        Err(flag + " cannot be empty"@)
    } else {
        Ok(trim(args[index]))
    }
}

/// The default command's options read from `args[i..]`, on top of `o`.
pub open spec fn run_from(args: Seq<Seq<char>>, i: nat, o: RunModel) -> Result<
    CommandModel,
    Seq<char>,
>
    decreases args.len() - i,
{
    if i >= args.len() {
        Ok(CommandModel::Run(o))
    } else {
        let a = args[i as int];
        if a == "--fast"@ {
            run_from(
                args,
                i + 1,
                RunModel { fast: true, no_art: o.no_art, plain: o.plain, name: o.name, theme: o.theme },
            )
        } else if a == "--no-art"@ {
            run_from(
                args,
                i + 1,
                RunModel { fast: o.fast, no_art: true, plain: o.plain, name: o.name, theme: o.theme },
            )
        } else if a == "--plain"@ {
            run_from(
                args,
                i + 1,
                RunModel { fast: o.fast, no_art: o.no_art, plain: true, name: o.name, theme: o.theme },
            )
        } else if a == "--name"@ {
            match required_spec(args, (i + 1) as int, "--name"@) {
                Ok(v) => run_from(
                    args,
                    i + 2,
                    RunModel {
                        fast: o.fast,
                        no_art: o.no_art,
                        plain: o.plain,
                        name: Some(v),
                        theme: o.theme,
                    },
                ),
                Err(e) => Err(e),
            }
        } else if a == "--theme"@ {
            match required_spec(args, (i + 1) as int, "--theme"@) {
                Ok(v) => run_from(
                    args,
                    i + 2,
                    RunModel {
                        fast: o.fast,
                        no_art: o.no_art,
                        plain: o.plain,
                        name: o.name,
                        theme: Some(v),
                    },
                ),
                Err(e) => Err(e),
            }
        } else if starts_with(a, '-') {
            Err("unknown option `"@ + a + "`"@)
        } else {
            Err("unknown command `"@ + a + "`"@)
        }
    }
}

/// The display options of `fetch` (`word` is `fetch`) or `project` read from `args[i..]`, on top of `o`.
pub open spec fn display_from(args: Seq<Seq<char>>, i: nat, o: DisplayModel, word: Seq<char>) -> Result<
    DisplayModel,
    Seq<char>,
>
    decreases args.len() - i,
{
    if i >= args.len() {
        Ok(o)
    } else {
        let a = args[i as int];
        if a == "--no-art"@ {
            display_from(
                args,
                i + 1,
                DisplayModel { no_art: true, plain: o.plain, theme: o.theme, json: o.json },
                word,
            )
        } else if a == "--plain"@ {
            display_from(
                args,
                i + 1,
                DisplayModel { no_art: o.no_art, plain: true, theme: o.theme, json: o.json },
                word,
            )
        } else if a == "--json"@ {
            display_from(
                args,
                i + 1,
                DisplayModel { no_art: o.no_art, plain: o.plain, theme: o.theme, json: true },
                word,
            )
        } else if a == "--theme"@ {
            match required_spec(args, (i + 1) as int, "--theme"@) {
                Ok(v) => display_from(
                    args,
                    i + 2,
                    DisplayModel { no_art: o.no_art, plain: o.plain, theme: Some(v), json: o.json },
                    word,
                ),
                Err(e) => Err(e),
            }
        } else if starts_with(a, '-') {
            Err("unknown "@ + word + " option `"@ + a + "`"@)
        } else {
            Err("unknown "@ + word + " argument `"@ + a + "`"@)
        }
    }
}

/// Display options read from `args`, refused where `--json` stands with a display option.
pub open spec fn display_spec(args: Seq<Seq<char>>, word: Seq<char>) -> Result<
    DisplayModel,
    Seq<char>,
> {
    match display_from(args, 0, no_display_options(), word) {
        Ok(o) => if o.json && (o.no_art || o.plain || o.theme is Some) {
            Err("`--json` cannot be combined with display options"@)
        } else {
            Ok(o)
        },
        Err(e) => Err(e),
    }
}

/// The arguments after `edit`.
pub open spec fn edit_spec(args: Seq<Seq<char>>) -> Result<CommandModel, Seq<char>> {
    if args.len() == 0 {
        Ok(CommandModel::Edit(None))
    } else if args.len() == 2 && args[0] == "--editor"@ {
        match required_spec(args, 1, "--editor"@) {
            Ok(v) => Ok(CommandModel::Edit(Some(v))),
            Err(e) => Err(e),
        }
    } else {
        Err("usage: yoo edit [--editor <EDITOR>]"@)
    }
}

/// The arguments after `completions`.
pub open spec fn completions_spec(args: Seq<Seq<char>>) -> Result<CommandModel, Seq<char>> {
    if args.len() == 1 {
        match shell_named(args[0]) {
            Some(shell) => Ok(CommandModel::Completions(shell)),
            None => Err("unsupported shell `"@ + args[0] + "`; use bash, zsh, fish, or powershell"@),
        }
    } else {
        Err("usage: yoo completions <bash|zsh|fish|powershell>"@)
    }
}

/// A session length: a whole number of minutes within the timer's limits.
pub open spec fn minutes_spec(value: Seq<char>) -> Result<u64, Seq<char>> {
    match parse_u64(value) {
        None => Err("minutes must be a whole number between 1 and 480"@),
        Some(m) => if MIN_MINUTES <= m <= MAX_MINUTES {
            Ok(m)
        } else {
            Err(minutes_range_message())
        },
    }
}

/// The arguments after `session`.
pub open spec fn session_spec(args: Seq<Seq<char>>) -> Result<CommandModel, Seq<char>> {
    if args.len() == 0 {
        Ok(CommandModel::Session(None))
    } else if args.len() == 1 {
        match minutes_spec(args[0]) {
            Ok(m) => Ok(CommandModel::Session(Some(m))),
            Err(e) => Err(e),
        }
    } else if args.len() == 2 && args[0] == "--minutes"@ {
        match minutes_spec(args[1]) {
            Ok(m) => Ok(CommandModel::Session(Some(m))),
            Err(e) => Err(e),
        }
    } else {
        Err("usage: yoo session [MINUTES] or yoo session --minutes <MINUTES>"@)
    }
}

/// The arguments after `tip`.
pub open spec fn tip_spec(args: Seq<Seq<char>>) -> Result<CommandModel, Seq<char>> {
    if args.len() == 0 {
        Ok(CommandModel::Tip(None))
    } else if args.len() == 1 && !starts_with(args[0], '-') {
        Ok(CommandModel::Tip(Some(trim(args[0]))))
    } else {
        Err("usage: yoo tip [PACK]"@)
    }
}

/// What the arguments after `snapshot` ask for: nothing to save, `list` or `compare`.
pub open spec fn snapshot_spec(args: Seq<Seq<char>>) -> Result<CommandModel, Seq<char>> {
    if args.len() == 0 {
        Ok(CommandModel::Snapshot(SnapshotAction::Save))
    } else if args.len() == 1 && args[0] == "list"@ {
        Ok(CommandModel::Snapshot(SnapshotAction::List))
    } else if args.len() == 1 && args[0] == "compare"@ {
        Ok(CommandModel::Snapshot(SnapshotAction::Compare))
    } else {
        Err("usage: yoo snapshot [list|compare]"@)
    }
}

/// The command that a whole command line asks for, or the message refusing it.
pub open spec fn parse_spec(args: Seq<Seq<char>>) -> Result<CommandModel, Seq<char>> {
    if args.len() == 0 {
        Ok(CommandModel::Run(no_run_options()))
    } else {
        let a = args[0];
        let rest = args.skip(1);
        if a == "help"@ || a == "--help"@ || a == "-h"@ {
            standalone_spec(args, CommandModel::Help)
        } else if a == "init"@ || a == "--init"@ {
            standalone_spec(args, CommandModel::Init)
        } else if a == "config"@ || a == "--config"@ {
            standalone_spec(args, CommandModel::ConfigPath)
        } else if a == "doctor"@ {
            standalone_spec(args, CommandModel::Doctor)
        } else if a == "edit"@ {
            edit_spec(rest)
        } else if a == "fetch"@ || a == "status"@ {
            match display_spec(rest, "fetch"@) {
                Ok(o) => Ok(CommandModel::Fetch(o)),
                Err(e) => Err(e),
            }
        } else if a == "project"@ {
            match display_spec(rest, "project"@) {
                Ok(o) => Ok(CommandModel::Project(o)),
                Err(e) => Err(e),
            }
        } else if a == "snapshot"@ {
            snapshot_spec(rest)
        } else if a == "tips"@ {
            standalone_spec(args, CommandModel::Tips)
        } else if a == "completions"@ {
            completions_spec(rest)
        } else if a == "tip"@ {
            tip_spec(rest)
        } else if a == "session"@ {
            session_spec(rest)
        } else if a == "version"@ || a == "--version"@ || a == "-V"@ {
            standalone_spec(args, CommandModel::Version)
        } else {
            run_from(args, 0, no_run_options())
        }
    }
}

proof fn lemma_run_from_is_run(args: Seq<Seq<char>>, i: nat, o: RunModel)
    ensures
        run_from(args, i, o) matches Ok(c) ==> c is Run,
    decreases args.len() - i,
{
    if i < args.len() {
        let a = args[i as int];
        if a == "--fast"@ {
            lemma_run_from_is_run(
                args,
                i + 1,
                RunModel { fast: true, no_art: o.no_art, plain: o.plain, name: o.name, theme: o.theme },
            );
        } else if a == "--no-art"@ {
            lemma_run_from_is_run(
                args,
                i + 1,
                RunModel { fast: o.fast, no_art: true, plain: o.plain, name: o.name, theme: o.theme },
            );
        } else if a == "--plain"@ {
            lemma_run_from_is_run(
                args,
                i + 1,
                RunModel { fast: o.fast, no_art: o.no_art, plain: true, name: o.name, theme: o.theme },
            );
        } else if a == "--name"@ {
            if let Ok(v) = required_spec(args, (i + 1) as int, "--name"@) {
                lemma_run_from_is_run(
                    args,
                    i + 2,
                    RunModel { fast: o.fast, no_art: o.no_art, plain: o.plain, name: Some(v), theme: o.theme },
                );
            }
        } else if a == "--theme"@ {
            if let Ok(v) = required_spec(args, (i + 1) as int, "--theme"@) {
                lemma_run_from_is_run(
                    args,
                    i + 2,
                    RunModel { fast: o.fast, no_art: o.no_art, plain: o.plain, name: o.name, theme: Some(v) },
                );
            }
        }
    }
}

/// Some argument from `args[start]` on is `flag`.
pub open spec fn flag_given(args: Seq<Seq<char>>, start: nat, flag: Seq<char>) -> bool {
    exists|j: int| start <= j < args.len() && #[trigger] args[j] == flag
}

/// Some argument from `args[start]` on is `flag` and does not follow
/// `--name` or `--theme`, whose value it would be.
pub open spec fn flag_read(args: Seq<Seq<char>>, start: nat, flag: Seq<char>) -> bool {
    exists|j: int|
        start <= j < args.len() && #[trigger] args[j] == flag && (j == start || (args[j - 1]
            != "--name"@ && args[j - 1] != "--theme"@))
}

proof fn lemma_run_switches(args: Seq<Seq<char>>, i: nat, o: RunModel)
    ensures
        run_from(args, i, o) matches Ok(CommandModel::Run(r)) ==> {
            &&& r.fast ==> o.fast || flag_given(args, i, "--fast"@)
            &&& r.no_art ==> o.no_art || flag_given(args, i, "--no-art"@)
            &&& r.plain ==> o.plain || flag_given(args, i, "--plain"@)
            &&& o.fast || flag_read(args, i, "--fast"@) ==> r.fast
            &&& o.no_art || flag_read(args, i, "--no-art"@) ==> r.no_art
            &&& o.plain || flag_read(args, i, "--plain"@) ==> r.plain
        },
    decreases args.len() - i,
{
    reveal_strlit("--fast");
    reveal_strlit("--no-art");
    reveal_strlit("--plain");
    reveal_strlit("--name");
    reveal_strlit("--theme");
    let fast = "--fast"@;
    let no_art = "--no-art"@;
    let plain = "--plain"@;
    let name = "--name"@;
    let theme = "--theme"@;
    assert(fast != no_art && fast != plain && no_art != plain && fast != name && fast != theme
        && no_art != name && no_art != theme && plain != name && plain != theme) by {
        assert(fast.len() != no_art.len() && fast.len() != plain.len() && no_art.len()
            != plain.len());
        assert(fast[2] != name[2] && no_art.len() != name.len() && plain[2] != name[2]);
        assert(fast.len() != theme.len() && no_art.len() != theme.len() && plain[2] != theme[2]);
    }
    if i < args.len() {
        let a = args[i as int];
        let step: nat = if a == name || a == theme {
            2
        } else {
            1
        };
        let next = if a == fast {
            RunModel { fast: true, no_art: o.no_art, plain: o.plain, name: o.name, theme: o.theme }
        } else if a == no_art {
            RunModel { fast: o.fast, no_art: true, plain: o.plain, name: o.name, theme: o.theme }
        } else if a == plain {
            RunModel { fast: o.fast, no_art: o.no_art, plain: true, name: o.name, theme: o.theme }
        } else if a == name {
            RunModel {
                fast: o.fast,
                no_art: o.no_art,
                plain: o.plain,
                name: Some(trim(args[i + 1int])),
                theme: o.theme,
            }
        } else {
            RunModel {
                fast: o.fast,
                no_art: o.no_art,
                plain: o.plain,
                name: o.name,
                theme: Some(trim(args[i + 1int])),
            }
        };
        if run_from(args, i, o) is Ok && (a == fast || a == no_art || a == plain || a == name || a
            == theme) {
            assert(run_from(args, i, o) == run_from(args, i + step, next));
            lemma_run_switches(args, i + step, next);
            assert forall|f: Seq<char>| flag_given(args, i + step, f) implies flag_given(args, i, f) by {
                let j = choose|j: int| i + step <= j < args.len() && #[trigger] args[j] == f;
                assert(args[j] == f);
            }
            assert forall|f: Seq<char>|
                (f == fast || f == no_art || f == plain) && flag_read(args, i, f) && args[i as int]
                    != f implies flag_read(args, i + step, f) by {
                let j = choose|j: int|
                    i <= j < args.len() && #[trigger] args[j] == f && (j == i || (args[j - 1]
                        != name && args[j - 1] != theme));
                assert(args[j] == f);
            }
        }
    }
}

/// The default command's switches come from the command line alone:
/// `--fast`, `--no-art` and `--plain` are each on only where that argument
/// is given, and on wherever it is given as a switch of its own (not right
/// after `--name` or `--theme`, as their value); no switch turns on another.
pub proof fn run_switches_follow_arguments(args: Seq<Seq<char>>)
    ensures
        parse_spec(args) matches Ok(CommandModel::Run(o)) ==> {
            &&& o.fast ==> flag_given(args, 0, "--fast"@)
            &&& o.no_art ==> flag_given(args, 0, "--no-art"@)
            &&& o.plain ==> flag_given(args, 0, "--plain"@)
            &&& flag_read(args, 0, "--fast"@) ==> o.fast
            &&& flag_read(args, 0, "--no-art"@) ==> o.no_art
            &&& flag_read(args, 0, "--plain"@) ==> o.plain
        },
{
    lemma_run_switches(args, 0, no_run_options());
}

/// `--json` is never combined with display options: whenever `fetch`,
/// `status` or `project` is read with `--json`, neither `--no-art`,
/// `--plain` nor `--theme` is in force.
pub proof fn json_excludes_display_options(args: Seq<Seq<char>>)
    ensures
        parse_spec(args) matches Ok(CommandModel::Fetch(o)) ==> (o.json ==> !o.no_art && !o.plain
            && o.theme is None),
        parse_spec(args) matches Ok(CommandModel::Project(o)) ==> (o.json ==> !o.no_art && !o.plain
            && o.theme is None),
{
    if args.len() > 0 {
        lemma_run_from_is_run(args, 0, no_run_options());
    }
}

/// `a` is the literal `lit`.
fn is_word(a: &String, lit: &str) -> (r: bool)
    ensures
        r == (a@ == lit@),
{
    same_text(a.as_str(), lit)
}

/// `a`, then `b`, then `c`.
fn join3(a: &str, b: &str, c: &str) -> (r: String)
    ensures
        r@ == a@ + b@ + c@,
{
    let mut r = String::from_str(a);
    r.append(b);
    r.append(c);
    r
}

/// Reads a command line into a command; the error is the message for the user.
pub fn parse(arguments: &[String]) -> (r: Result<Command, String>)
    ensures
        match (r, parse_spec(arg_views(arguments@))) {
            (Ok(c), Ok(m)) => c@ == m,
            (Err(e), Err(m)) => e@ == m,
            _ => false,
        },
{
    let ghost args = arg_views(arguments@);
    if arguments.len() == 0 {
        return Ok(
            Command::Run(RunOptions { fast: false, no_art: false, plain: false, name: None, theme: None }),
        );
    }
    let rest = slice_subrange(arguments, 1, arguments.len());
    assert(arg_views(rest@) == args.skip(1));
    let a = &arguments[0];
    if is_word(a, "help") || is_word(a, "--help") || is_word(a, "-h") {
        require_standalone(arguments, Command::Help)
    } else if is_word(a, "init") || is_word(a, "--init") {
        require_standalone(arguments, Command::Init)
    } else if is_word(a, "config") || is_word(a, "--config") {
        require_standalone(arguments, Command::ConfigPath)
    } else if is_word(a, "doctor") {
        require_standalone(arguments, Command::Doctor)
    } else if is_word(a, "edit") {
        parse_edit(rest)
    } else if is_word(a, "fetch") || is_word(a, "status") {
        parse_fetch(rest)
    } else if is_word(a, "project") {
        parse_project(rest)
    } else if is_word(a, "snapshot") {
        parse_snapshot(rest)
    } else if is_word(a, "tips") {
        require_standalone(arguments, Command::Tips)
    } else if is_word(a, "completions") {
        parse_completions(rest)
    } else if is_word(a, "tip") {
        parse_tip(rest)
    } else if is_word(a, "session") {
        parse_session(rest)
    } else if is_word(a, "version") || is_word(a, "--version") || is_word(a, "-V") {
        require_standalone(arguments, Command::Version)
    } else {
        parse_run(arguments)
    }
}

fn parse_edit(arguments: &[String]) -> (r: Result<Command, String>)
    ensures
        match (r, edit_spec(arg_views(arguments@))) {
            (Ok(c), Ok(m)) => c@ == m,
            (Err(e), Err(m)) => e@ == m,
            _ => false,
        },
{
    if arguments.len() == 0 {
        Ok(Command::Edit(EditOptions { editor: None }))
    } else if arguments.len() == 2 && is_word(&arguments[0], "--editor") {
        match required_value(arguments, 1, "--editor") {
            Ok(v) => Ok(Command::Edit(EditOptions { editor: Some(v) })),
            Err(e) => Err(e),
        }
    } else {
        Err(String::from_str("usage: yoo edit [--editor <EDITOR>]"))
    }
}

fn parse_completions(arguments: &[String]) -> (r: Result<Command, String>)
    ensures
        match (r, completions_spec(arg_views(arguments@))) {
            (Ok(c), Ok(m)) => c@ == m,
            (Err(e), Err(m)) => e@ == m,
            _ => false,
        },
{
    if arguments.len() != 1 {
        return Err(String::from_str("usage: yoo completions <bash|zsh|fish|powershell>"));
    }
    let shell = &arguments[0];
    match Shell::parse(shell.as_str()) {
        Some(s) => Ok(Command::Completions(s)),
        None => Err(
            join3("unsupported shell `", shell.as_str(), "`; use bash, zsh, fish, or powershell"),
        ),
    }
}

fn parse_run(arguments: &[String]) -> (r: Result<Command, String>)
    ensures
        match (r, run_from(arg_views(arguments@), 0, no_run_options())) {
            (Ok(c), Ok(m)) => c@ == m,
            (Err(e), Err(m)) => e@ == m,
            _ => false,
        },
{
    let ghost args = arg_views(arguments@);
    let mut options = RunOptions { fast: false, no_art: false, plain: false, name: None, theme: None };
    let mut index: usize = 0;
    while index < arguments.len()
        invariant
            index <= arguments@.len(),
            args == arg_views(arguments@),
            run_from(args, 0, no_run_options()) == run_from(args, index as nat, options@),
        decreases arguments.len() - index,
    {
        let a = &arguments[index];
        if is_word(a, "--fast") {
            options.fast = true;
        } else if is_word(a, "--no-art") {
            options.no_art = true;
        } else if is_word(a, "--plain") {
            options.plain = true;
        } else if is_word(a, "--name") {
            index += 1;
            match required_value(arguments, index, "--name") {
                Ok(v) => {
                    options.name = Some(v);
                },
                Err(e) => {
                    return Err(e);
                },
            }
        } else if is_word(a, "--theme") {
            index += 1;
            match required_value(arguments, index, "--theme") {
                Ok(v) => {
                    options.theme = Some(v);
                },
                Err(e) => {
                    return Err(e);
                },
            }
        } else if starts_with_dash(a.as_str()) {
            return Err(join3("unknown option `", a.as_str(), "`"));
        } else {
            return Err(join3("unknown command `", a.as_str(), "`"));
        }
        index += 1;
    }
    Ok(Command::Run(options))
}

fn parse_display(arguments: &[String], word: &str) -> (r: Result<(bool, bool, Option<String>, bool), String>)
    ensures
        match (r, display_spec(arg_views(arguments@), word@)) {
            (Ok(o), Ok(m)) => o.0 == m.no_art && o.1 == m.plain && opt_view(o.2) == m.theme && o.3 == m.json,
            (Err(e), Err(m)) => e@ == m,
            _ => false,
        },
{
    let ghost args = arg_views(arguments@);
    let mut options = FetchOptions { no_art: false, plain: false, theme: None, json: false };
    let mut index: usize = 0;
    while index < arguments.len()
        invariant
            index <= arguments@.len(),
            args == arg_views(arguments@),
            display_from(args, 0, no_display_options(), word@) == display_from(
                args,
                index as nat,
                options@,
                word@,
            ),
        decreases arguments.len() - index,
    {
        let a = &arguments[index];
        if is_word(a, "--no-art") {
            options.no_art = true;
        } else if is_word(a, "--plain") {
            options.plain = true;
        } else if is_word(a, "--json") {
            options.json = true;
        } else if is_word(a, "--theme") {
            index += 1;
            match required_value(arguments, index, "--theme") {
                Ok(v) => {
                    options.theme = Some(v);
                },
                Err(e) => {
                    return Err(e);
                },
            }
        } else if starts_with_dash(a.as_str()) {
            let mut e = String::from_str("unknown ");
            e.append(word);
            e.append(" option `");
            e.append(a.as_str());
            e.append("`");
            return Err(e);
        } else {
            let mut e = String::from_str("unknown ");
            e.append(word);
            e.append(" argument `");
            e.append(a.as_str());
            e.append("`");
            return Err(e);
        }
        index += 1;
    }
    if options.json && (options.no_art || options.plain || options.theme.is_some()) {
        return Err(String::from_str("`--json` cannot be combined with display options"));
    }
    Ok((options.no_art, options.plain, options.theme, options.json))
}

fn parse_fetch(arguments: &[String]) -> (r: Result<Command, String>)
    ensures
        match (r, display_spec(arg_views(arguments@), "fetch"@)) {
            (Ok(c), Ok(m)) => c@ == CommandModel::Fetch(m),
            (Err(e), Err(m)) => e@ == m,
            _ => false,
        },
{
    match parse_display(arguments, "fetch") {
        Ok((no_art, plain, theme, json)) => Ok(
            Command::Fetch(FetchOptions { no_art, plain, theme, json }),
        ),
        Err(e) => Err(e),
    }
}

fn parse_project(arguments: &[String]) -> (r: Result<Command, String>)
    ensures
        match (r, display_spec(arg_views(arguments@), "project"@)) {
            (Ok(c), Ok(m)) => c@ == CommandModel::Project(m),
            (Err(e), Err(m)) => e@ == m,
            _ => false,
        },
{
    match parse_display(arguments, "project") {
        Ok((no_art, plain, theme, json)) => Ok(
            Command::Project(ProjectOptions { no_art, plain, theme, json }),
        ),
        Err(e) => Err(e),
    }
}

fn parse_session(arguments: &[String]) -> (r: Result<Command, String>)
    ensures
        match (r, session_spec(arg_views(arguments@))) {
            (Ok(c), Ok(m)) => c@ == m,
            (Err(e), Err(m)) => e@ == m,
            _ => false,
        },
{
    if arguments.len() == 0 {
        return Ok(Command::Session(SessionOptions { minutes: None }));
    }
    if arguments.len() == 1 {
        return match parse_minutes(arguments[0].as_str()) {
            Ok(m) => Ok(Command::Session(SessionOptions { minutes: Some(m) })),
            Err(e) => Err(e),
        };
    }
    if arguments.len() == 2 && is_word(&arguments[0], "--minutes") {
        return match parse_minutes(arguments[1].as_str()) {
            Ok(m) => Ok(Command::Session(SessionOptions { minutes: Some(m) })),
            Err(e) => Err(e),
        };
    }
    Err(String::from_str("usage: yoo session [MINUTES] or yoo session --minutes <MINUTES>"))
}

fn parse_snapshot(arguments: &[String]) -> (r: Result<Command, String>)
    ensures
        match (r, snapshot_spec(arg_views(arguments@))) {
            (Ok(c), Ok(m)) => c@ == m,
            (Err(e), Err(m)) => e@ == m,
            _ => false,
        },
{
    if arguments.len() == 0 {
        Ok(Command::Snapshot(SnapshotAction::Save))
    } else if arguments.len() == 1 && is_word(&arguments[0], "list") {
        Ok(Command::Snapshot(SnapshotAction::List))
    } else if arguments.len() == 1 && is_word(&arguments[0], "compare") {
        Ok(Command::Snapshot(SnapshotAction::Compare))
    } else {
        Err(String::from_str("usage: yoo snapshot [list|compare]"))
    }
}

fn parse_tip(arguments: &[String]) -> (r: Result<Command, String>)
    ensures
        match (r, tip_spec(arg_views(arguments@))) {
            (Ok(c), Ok(m)) => c@ == m,
            (Err(e), Err(m)) => e@ == m,
            _ => false,
        },
{
    if arguments.len() == 0 {
        Ok(Command::Tip(None))
    } else if arguments.len() == 1 && !starts_with_dash(arguments[0].as_str()) {
        Ok(Command::Tip(Some(trimmed(arguments[0].as_str()))))
    } else {
        Err(String::from_str("usage: yoo tip [PACK]"))
    }
}

fn parse_minutes(value: &str) -> (r: Result<u64, String>)
    ensures
        match (r, minutes_spec(value@)) {
            (Ok(m), Ok(n)) => m == n,
            (Err(e), Err(m)) => e@ == m,
            _ => false,
        },
{
    match parse_u64_text(value) {
        None => Err(String::from_str("minutes must be a whole number between 1 and 480")),
        Some(minutes) => {
            if !(MIN_MINUTES <= minutes && minutes <= MAX_MINUTES) {
                Err(String::from_str("minutes must be between 1 and 480"))
            } else {
                Ok(minutes)
            }
        },
    }
}

fn require_standalone(arguments: &[String], command: Command) -> (r: Result<Command, String>)
    requires
        arguments@.len() > 0,
    ensures
        match (r, standalone_spec(arg_views(arguments@), command@)) {
            (Ok(c), Ok(m)) => c@ == m,
            (Err(e), Err(m)) => e@ == m,
            _ => false,
        },
{
    if arguments.len() == 1 {
        Ok(command)
    } else {
        Err(join3("`", arguments[0].as_str(), "` cannot be combined with other options"))
    }
}

fn required_value(arguments: &[String], index: usize, flag: &str) -> (r: Result<String, String>)
    ensures
        match (r, required_spec(arg_views(arguments@), index as int, flag@)) {
            (Ok(v), Ok(m)) => v@ == m,
            (Err(e), Err(m)) => e@ == m,
            _ => false,
        },
{
    if index >= arguments.len() {
        let mut e = String::from_str(flag);
        e.append(" needs a value");
        return Err(e);
    }
    let value = trimmed(arguments[index].as_str());
    if value.as_str().is_empty() {
        let mut e = String::from_str(flag);
        e.append(" cannot be empty");
        return Err(e);
    }
    Ok(value)
}

fn starts_with_dash(a: &str) -> (r: bool)
    ensures
        r == starts_with(a@, '-'),
{
    let v = crate::text::chars_of(a);
    v.len() > 0 && v[0] == '-'
}

/// The usage text.
pub const HELP_TEXT: &'static str = r#"yoo — local project and development environment information

USAGE:
  yoo [OPTIONS]
  yoo <COMMAND>

COMMANDS:
  init                    Create the default TOML config and a sample community tip pack
  config                  Print the TOML config file location
  doctor                  Check Rust, Cargo, Git, config, and current-project setup
  edit [OPTIONS]          Open the current directory in your preferred editor
  fetch [OPTIONS]         Show developer environment and current-project information
  status [OPTIONS]        Alias for `yoo fetch`
  project [OPTIONS]       Show a structured overview of the current project
  snapshot [list|compare] Save, list, or compare local snapshots of the current project
  session [MINUTES]       Start a local coding-session timer (default comes from config)
  tip [PACK]              Print one random tip; PACK defaults to your configured pack
  tips                    List built-in and locally installed community tip packs
  completions <SHELL>     Generate completions for Bash, Zsh, Fish, or PowerShell
  version                 Print version
  help                    Print this help message

FETCH / PROJECT OPTIONS:
  --json                  Print machine-readable JSON with no decoration
  --no-art                Hide the ASCII logo for this run
  --plain                 Disable ANSI colours for this run
  --theme <THEME>         Override the theme for this run only

EDIT OPTIONS:
  --editor <EDITOR>       Use a specific editor instead of automatic detection

RUN OPTIONS:
  --fast                  Skip the typewriter animation
  --no-art                Hide the ASCII logo for this run
  --plain                 Disable ANSI colours for this run
  --name <NAME>           Use a name for this run only
  --theme <THEME>         Override the theme for this run only
  -h, --help              Print help
  -V, --version           Print version

THEMES:
  neon, ocean, mono, dracula, tokyo-night, gruvbox, nord, rose-pine, catppuccin

EXAMPLES:
  yoo
  yoo --fast --theme tokyo-night
  yoo doctor
  yoo edit
  yoo edit --editor cursor
  yoo fetch
  yoo fetch --json
  yoo project
  yoo project --json
  yoo status --plain
  yoo session 45
  yoo tip rust
  yoo tips
  yoo completions bash
  yoo init
"#;

/// The version of `yoo`.
pub const VERSION: &'static str = "1.1.2";

/// The usage text printed by `help` and after an argument error.
pub fn help_text() -> (r: &'static str)
    ensures
        r == HELP_TEXT,
{
    HELP_TEXT
}

} // verus!
