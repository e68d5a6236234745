//! The hand-editable `key = value` configuration file: its defaults, the
//! reading of its text, and the checks that every setting must pass.

use vstd::prelude::*;

use crate::ui::{fold, fold_chars, joined, theme_list_text, theme_named, theme_names, Theme};
use crate::text::{
    chars_are, chars_of, decimal, find_char, first_index, parse_u64, parse_u64_chars,
    push_decimal, string_of, strip_both, strip_chars, sub_chars, trim, trim_chars,
};

verus! {

/// The file that `init` writes.
pub const DEFAULT_CONFIG: &'static str = r#"# yoo configuration
# This is intentionally small so you can edit it by hand.

name = "developer"
theme = "neon"
typing_speed_ms = 12
show_art = true
show_git = true
"#;

/// The settings.
#[derive(Debug, Clone, PartialEq, Eq)]
pub struct Config {
    pub name: String,
    pub theme: String,
    pub typing_speed_ms: u64,
    pub show_art: bool,
    pub show_git: bool,
}

/// `Config` with texts as character sequences.
pub struct ConfigModel {
    pub name: Seq<char>,
    pub theme: Seq<char>,
    pub typing_speed_ms: u64,
    pub show_art: bool,
    pub show_git: bool,
}

impl View for Config {
    type V = ConfigModel;

    open spec fn view(&self) -> ConfigModel {
        ConfigModel {
            name: self.name@,
            theme: self.theme@,
            typing_speed_ms: self.typing_speed_ms,
            show_art: self.show_art,
            show_git: self.show_git,
        }
    }
}

/// The settings in force where the file sets nothing.
pub open spec fn default_config() -> ConfigModel {
    ConfigModel {
        name: "developer"@,
        theme: "neon"@,
        typing_speed_ms: 12,
        show_art: true,
        show_git: true,
    }
}

impl Default for Config {
    fn default() -> (c: Self)
        ensures
            c@ == default_config(),
    {
        Config {
            name: String::from_str("developer"),
            theme: String::from_str("neon"),
            typing_speed_ms: 12,
            show_art: true,
            show_git: true,
        }
    }
}

/// What `init` found at the configuration path.
#[derive(Debug, Clone, Copy, PartialEq, Eq, Structural)]
pub enum InitResult {
    Created,
    AlreadyExists,
}

/// Why the configuration was refused; the message is for the user.
#[derive(Debug, Clone, PartialEq, Eq)]
pub struct ConfigError {
    message: String,
}

impl View for ConfigError {
    type V = Seq<char>;

    closed spec fn view(&self) -> Seq<char> {
        self.message@
    }
}

impl ConfigError {
    fn new(message: String) -> (e: Self)
        ensures
            e@ == message@,
    {
        ConfigError { message }
    }

    /// The message, as the error displays it.
    pub fn to_string(&self) -> (s: String)
        ensures
            s@ == self@,
    {
        self.message.clone()
    }
}

/// One line without what follows `#`, trimmed.
pub open spec fn content_of(raw: Seq<char>) -> Seq<char> {
    trim(raw.take(first_index(raw, '#') as int))
}

/// The text of a `true` or `false` setting.
pub open spec fn parse_bool(value: Seq<char>) -> Option<bool> {
    if value == "true"@ {
        Some(true)
    } else if value == "false"@ {
        Some(false)
    } else {
        None
    }
}

/// Applies the setting `key = value` to `c`. Unknown keys are ignored.
pub open spec fn apply_setting(key: Seq<char>, value: Seq<char>, c: ConfigModel) -> Result<
    ConfigModel,
    Seq<char>,
> {
    if key == "name"@ {
        if value.len() == 0 {
            Err("name cannot be empty"@)
        } else {
            Ok(ConfigModel { name: value, ..c })
        }
    } else if key == "theme"@ {
        Ok(ConfigModel { theme: fold(value), ..c })
    } else if key == "typing_speed_ms"@ {
        match parse_u64(value) {
            Some(n) => Ok(ConfigModel { typing_speed_ms: n, ..c }),
            None => Err("typing_speed_ms must be a whole number between 0 and 250"@),
        }
    } else if key == "show_art"@ {
        match parse_bool(value) {
            Some(b) => Ok(ConfigModel { show_art: b, ..c }),
            None => Err("show_art must be true or false"@),
        }
    } else if key == "show_git"@ {
        match parse_bool(value) {
            Some(b) => Ok(ConfigModel { show_git: b, ..c }),
            None => Err("show_git must be true or false"@),
        }
    } else {
        Ok(c)
    }
}

/// Line number `number` (counted from 1) applied to `c`.
pub open spec fn apply_line(raw: Seq<char>, number: nat, c: ConfigModel) -> Result<
    ConfigModel,
    Seq<char>,
> {
    let line = content_of(raw);
    let eq = first_index(line, '=');
    if line.len() == 0 {
        Ok(c)
    } else if eq == line.len() {
        Err("line "@ + decimal(number) + " must use key = value"@)
    } else {
        apply_setting(trim(line.take(eq as int)), strip_both(trim(line.skip((eq + 1) as int)), '"'), c)
    }
}

/// The line that ends at `k` (a newline there, or the end of the text): without the `\r` of a `\r\n`.
pub open spec fn line_text(s: Seq<char>, k: nat) -> Seq<char> {
    if k < s.len() && k > 0 && s[k - 1] == '\r' {
        s.take(k - 1)
    } else {
        s.take(k as int)
    }
}

/// The lines of `s`, as `str::lines` gives them, applied in turn to `c`;
/// `number` lines came before `s`.
pub open spec fn apply_lines(s: Seq<char>, number: nat, c: ConfigModel) -> Result<
    ConfigModel,
    Seq<char>,
>
    decreases s.len(),
{
    if s.len() == 0 {
        Ok(c)
    } else {
        let k = first_index(s, '\n');
        match apply_line(line_text(s, k), number + 1, c) {
            Ok(next) => if k < s.len() {
                apply_lines(s.skip((k + 1) as int), number + 1, next)
            } else {
                Ok(next)
            },
            Err(e) => Err(e),
        }
    }
}

/// The checks every configuration must pass.
pub open spec fn validate_spec(c: ConfigModel) -> Result<(), Seq<char>> {
    if theme_named(c.theme) is None {
        Err("theme must be one of: "@ + joined(theme_names(), ", "@))
    } else if c.typing_speed_ms > 250 {
        Err("typing_speed_ms must be between 0 and 250"@)
    } else {
        Ok(())
    }
}

/// The configuration that the text `contents` describes, or the message refusing it.
///
/// Themes are lowercased (see `ui::fold`) and must name a theme that the
/// display offers. A theme name is ASCII, and the only characters whose
/// lowercase form is an ASCII letter are the ASCII capitals and the Kelvin
/// sign, so every accepted theme is stored exactly as full Unicode
/// lowercasing would store it.
pub open spec fn parse_spec(contents: Seq<char>) -> Result<ConfigModel, Seq<char>> {
    match apply_lines(contents, 0, default_config()) {
        Ok(c) => match validate_spec(c) {
            Ok(_) => Ok(c),
            Err(e) => Err(e),
        },
        Err(e) => Err(e),
    }
}

/// The text of a `true` or `false` setting value.
pub open spec fn bool_text(b: bool) -> Seq<char> {
    if b {
        "true"@
    } else {
        "false"@
    }
}

/// `c` is neither whitespace nor `#`, `=` or `"`.
pub open spec fn plain_char(c: char) -> bool {
    !crate::text::is_ws(c) && c != '#' && c != '=' && c != '"'
}

/// `s` is not empty and holds no whitespace, `#`, `=` or `"`.
pub open spec fn plain_word(s: Seq<char>) -> bool {
    &&& s.len() > 0
    &&& forall|i: int| 0 <= i < s.len() ==> plain_char(#[trigger] s[i])
}

/// A line `key = value` of plain words is the setting of `value` under `key`.
proof fn lemma_setting_line(key: Seq<char>, value: Seq<char>, number: nat, c: ConfigModel)
    requires
        plain_word(key),
        plain_word(value),
    ensures
        apply_line(key + " = "@ + value, number, c) == apply_setting(key, value, c),
{
    reveal_strlit(" = ");
    let n = key.len() as int;
    let raw = key + " = "@ + value;
    assert(raw[n] == ' ' && raw[n + 1] == '=' && raw[n + 2] == ' ');
    assert forall|i: int| 0 <= i < raw.len() implies raw[i] != '#' && (i != n + 1 ==> raw[i] != '=')
        && (i < n || i >= n + 3 ==> !crate::text::is_ws(raw[i])) by {
        if i < n {
            assert(raw[i] == key[i]);
        } else if i >= n + 3 {
            assert(raw[i] == value[i - n - 3]);
        }
    }
    crate::text::lemma_first_index(raw, '#', raw.len() as int);
    assert(raw.take(raw.len() as int) =~= raw);
    assert(raw[0] == key[0]);
    assert(raw.last() == value.last());
    assert(trim(raw) == raw);
    assert(content_of(raw) == raw);
    crate::text::lemma_first_index(raw, '=', n + 1);
    let left = raw.take(n + 1);
    assert(left.drop_last() =~= key);
    assert(left[0] == key[0]);
    assert(crate::text::trim_start(left) == left);
    assert(key.last() == key[n - 1]);
    assert(crate::text::trim_end(key) == key);
    assert(trim(left) == key);
    let right = raw.skip(n + 2);
    assert(right.drop_first() =~= value);
    assert(crate::text::trim_start(value) == value);
    assert(crate::text::trim_start(right) == value);
    assert(crate::text::trim_end(value) == value);
    assert(trim(right) == value);
    assert(crate::text::strip_start(value, '"') == value);
    assert(crate::text::strip_end(value, '"') == value);
}

proof fn lemma_plain_words()
    ensures
        plain_word("show_git"@),
        plain_word("show_art"@),
        plain_word("true"@),
        plain_word("false"@),
{
    reveal_strlit("show_git");
    reveal_strlit("show_art");
    reveal_strlit("true");
    reveal_strlit("false");
    let g = "show_git"@;
    let a = "show_art"@;
    assert forall|i: int| 0 <= i < 8 implies plain_char(#[trigger] g[i]) && plain_char(a[i]) by {
        assert(i == 0 || i == 1 || i == 2 || i == 3 || i == 4 || i == 5 || i == 6 || i == 7);
    }
}

/// A `show_art` or `show_git` line sets that setting to the value it
/// writes, whatever was set before, and leaves every other setting as it
/// was; a text made of that one line is the defaults with that setting
/// changed.
pub proof fn boolean_settings_take_the_written_value(c: ConfigModel, b: bool, number: nat)
    ensures
        apply_line("show_git"@ + " = "@ + bool_text(b), number, c) == Ok::<ConfigModel, Seq<char>>(
            ConfigModel { show_git: b, ..c },
        ),
        apply_line("show_art"@ + " = "@ + bool_text(b), number, c) == Ok::<ConfigModel, Seq<char>>(
            ConfigModel { show_art: b, ..c },
        ),
        parse_spec("show_git"@ + " = "@ + bool_text(b)) == Ok::<ConfigModel, Seq<char>>(
            ConfigModel { show_git: b, ..default_config() },
        ),
        parse_spec("show_art"@ + " = "@ + bool_text(b)) == Ok::<ConfigModel, Seq<char>>(
            ConfigModel { show_art: b, ..default_config() },
        ),
{
    reveal_strlit("show_git");
    reveal_strlit("show_art");
    reveal_strlit("true");
    reveal_strlit("false");
    reveal_strlit("name");
    reveal_strlit("theme");
    reveal_strlit("typing_speed_ms");
    reveal_strlit(" = ");
    lemma_plain_words();
    assert("show_git"@ != "show_art"@) by {
        assert("show_git"@[5] != "show_art"@[5]);
    }
    assert("true"@ != "false"@);
    assert(parse_bool(bool_text(b)) == Some(b));
    let v = bool_text(b);
    lemma_setting_line("show_git"@, v, number, c);
    lemma_setting_line("show_art"@, v, number, c);
    lemma_setting_line("show_git"@, v, 1, default_config());
    lemma_setting_line("show_art"@, v, 1, default_config());
    crate::ui::offered_names_are_themes();
    assert(crate::ui::theme_names()[0] == "neon"@);
    let g = "show_git"@ + " = "@ + v;
    let a = "show_art"@ + " = "@ + v;
    assert forall|i: int| 0 <= i < g.len() implies g[i] != '\n' by {
        if i < 8 {
            assert(g[i] == "show_git"@[i]);
        } else if i < 11 {
            assert(g[i] == " = "@[i - 8]);
        } else {
            assert(g[i] == v[i - 11]);
            assert(plain_char(v[i - 11]));
        }
    }
    assert forall|i: int| 0 <= i < a.len() implies a[i] != '\n' by {
        if i < 8 {
            assert(a[i] == "show_art"@[i]);
        } else if i < 11 {
            assert(a[i] == " = "@[i - 8]);
        } else {
            assert(a[i] == v[i - 11]);
            assert(plain_char(v[i - 11]));
        }
    }
    crate::text::lemma_first_index(g, '\n', g.len() as int);
    crate::text::lemma_first_index(a, '\n', a.len() as int);
    assert(g.take(g.len() as int) =~= g);
    assert(a.take(a.len() as int) =~= a);
    assert(line_text(g, g.len()) == g);
    assert(line_text(a, a.len()) == a);
}

fn bool_of(v: &Vec<char>) -> (r: Option<bool>)
    ensures
        r == parse_bool(v@),
{
    if chars_are(v, "true") {
        Some(true)
    } else if chars_are(v, "false") {
        Some(false)
    } else {
        None
    }
}

fn error_of(text: &str) -> (e: ConfigError)
    ensures
        e@ == text@,
{
    ConfigError::new(String::from_str(text))
}

/// Applies the line `v[from..to]`, number `number`, to `config`.
fn apply_line_exec(v: &Vec<char>, from: usize, to: usize, number: usize, config: &mut Config) -> (r:
    Result<(), ConfigError>)
    requires
        from <= to <= v@.len(),
    ensures
        match apply_line(v@.subrange(from as int, to as int), number as nat, old(config)@) {
            Ok(c) => r is Ok && final(config)@ == c,
            Err(m) => r matches Err(e) && e@ == m,
        },
{
    let raw = sub_chars(v, from, to);
    let hash = find_char(&raw, '#');
    let line = trim_chars(&sub_chars(&raw, 0, hash));
    if line.len() == 0 {
        return Ok(());
    }
    let eq = find_char(&line, '=');
    if eq == line.len() {
        let mut m = String::from_str("line ");
        push_decimal(&mut m, number as u64);
        m.append(" must use key = value");
        return Err(ConfigError::new(m));
    }
    let key = trim_chars(&sub_chars(&line, 0, eq));
    let value = strip_chars(&trim_chars(&sub_chars(&line, eq + 1, line.len())), '"');
    assert(line@.take(eq as int) == line@.subrange(0, eq as int));
    assert(line@.skip(eq + 1) == line@.subrange(eq + 1, line@.len() as int));
    if chars_are(&key, "name") {
        if value.len() == 0 {
            return Err(error_of("name cannot be empty"));
        }
        config.name = string_of(&value);
    } else if chars_are(&key, "theme") {
        config.theme = string_of(&fold_chars(&value));
    } else if chars_are(&key, "typing_speed_ms") {
        match parse_u64_chars(&value) {
            Some(n) => {
                config.typing_speed_ms = n;
            },
            None => {
                return Err(error_of("typing_speed_ms must be a whole number between 0 and 250"));
            },
        }
    } else if chars_are(&key, "show_art") {
        match bool_of(&value) {
            Some(b) => {
                config.show_art = b;
            },
            None => {
                return Err(error_of("show_art must be true or false"));
            },
        }
    } else if chars_are(&key, "show_git") {
        match bool_of(&value) {
            Some(b) => {
                config.show_git = b;
            },
            None => {
                return Err(error_of("show_git must be true or false"));
            },
        }
    }
    Ok(())
}

/// Reads the configuration text; the error says what is wrong with it.
pub fn parse(contents: &str) -> (r: Result<Config, ConfigError>)
    ensures
        match parse_spec(contents@) {
            Ok(c) => r matches Ok(config) && config@ == c,
            Err(m) => r matches Err(e) && e@ == m,
        },
{
    let v = chars_of(contents);
    let mut config = Config::default();
    let mut pos: usize = 0;
    let mut number: usize = 0;
    assert(v@.skip(0) == v@);
    while pos < v.len()
        invariant
            pos <= v@.len(),
            number <= pos,
            v@ == contents@,
            apply_lines(v@, 0, default_config()) == apply_lines(
                v@.skip(pos as int),
                number as nat,
                config@,
            ),
        decreases v.len() - pos,
    {
        let ghost s = v@.skip(pos as int);
        let rest = sub_chars(&v, pos, v.len());
        assert(rest@ == s);
        let k = find_char(&rest, '\n');
        let end = pos + k;
        let line_end = if k < rest.len() && k > 0 && rest[k - 1] == '\r' {
            end - 1
        } else {
            end
        };
        assert(v@.subrange(pos as int, line_end as int) == line_text(s, k as nat));
        match apply_line_exec(&v, pos, line_end, number + 1, &mut config) {
            Ok(()) => {},
            Err(e) => {
                return Err(e);
            },
        }
        number += 1;
        if k < rest.len() {
            assert(s.skip(k + 1) == v@.skip(end + 1));
            pos = end + 1;
        } else {
            pos = v.len();
            assert(v@.skip(pos as int).len() == 0);
        }
    }
    assert(v@.skip(pos as int).len() == 0);
    match validate(&config) {
        Ok(()) => Ok(config),
        Err(e) => Err(e),
    }
}

/// The checks every configuration must pass.
pub fn validate(config: &Config) -> (r: Result<(), ConfigError>)
    ensures
        match validate_spec(config@) {
            Ok(_) => r is Ok,
            Err(m) => r matches Err(e) && e@ == m,
        },
{
    if Theme::parse(config.theme.as_str()).is_none() {
        let mut m = String::from_str("theme must be one of: ");
        let list = theme_list_text();
        m.append(list.as_str());
        return Err(ConfigError::new(m));
    }
    if config.typing_speed_ms > 250 {
        return Err(error_of("typing_speed_ms must be between 0 and 250"));
    }
    Ok(())
}


/// The home directory: `%USERPROFILE%`, else `$HOME`.
pub open spec fn home_spec(userprofile: Option<String>, home: Option<String>) -> Option<Seq<char>> {
    match userprofile {
        Some(u) => Some(u@),
        None => match home {
            Some(h) => Some(h@),
            None => None,
        },
    }
}

/// The parts of the path of the directory that holds the configuration:
/// on Windows `%USERPROFILE%\.config\yoo`, on macOS
/// `~/Library/Application Support/yoo`, elsewhere `$XDG_CONFIG_HOME/yoo` or
/// `~/.config/yoo`; nothing where no base is known.
pub open spec fn config_dir_spec(
    os: Seq<char>,
    xdg_config_home: Option<String>,
    userprofile: Option<String>,
    home: Option<String>,
) -> Option<Seq<Seq<char>>> {
    let base = home_spec(userprofile, home);
    if os == "windows"@ {
        match base {
            Some(h) => Some(seq![h, ".config"@, "yoo"@]),
            None => None,
        }
    } else if os == "macos"@ {
        match base {
            Some(h) => Some(seq![h, "Library"@, "Application Support"@, "yoo"@]),
            None => None,
        }
    } else {
        match xdg_config_home {
            Some(x) => Some(seq![x@, "yoo"@]),
            None => match base {
                Some(h) => Some(seq![h, ".config"@, "yoo"@]),
                None => None,
            },
        }
    }
}

/// The parts of the path of the configuration directory on the system `os`
/// (as `std::env::consts::OS` names it), from the environment's values; where
/// no base is known, `.yoo` in `current_directory`.
pub fn config_dir(
    os: &str,
    xdg_config_home: Option<String>,
    userprofile: Option<String>,
    home: Option<String>,
    current_directory: String,
) -> (r: Vec<String>)
    ensures
        r@.map_values(|s: String| s@) == match config_dir_spec(
            os@,
            xdg_config_home,
            userprofile,
            home,
        ) {
            Some(parts) => parts,
            None => seq![current_directory@, ".yoo"@],
        },
{
    let ghost spec = config_dir_spec(os@, xdg_config_home, userprofile, home);
    let base: Option<String> = match userprofile {
        Some(u) => Some(u),
        None => home,
    };
    let name = chars_of(os);
    let parts: Option<Vec<String>> = if chars_are(&name, "windows") {
        match base {
            Some(h) => Some(vec![h, String::from_str(".config"), String::from_str("yoo")]),
            None => None,
        }
    } else if chars_are(&name, "macos") {
        match base {
            Some(h) => Some(
                vec![
                    h,
                    String::from_str("Library"),
                    String::from_str("Application Support"),
                    String::from_str("yoo"),
                ],
            ),
            None => None,
        }
    } else {
        match xdg_config_home {
            Some(x) => Some(vec![x, String::from_str("yoo")]),
            None => match base {
                Some(h) => Some(vec![h, String::from_str(".config"), String::from_str("yoo")]),
                None => None,
            },
        }
    };
    match parts {
        Some(v) => {
            assert(v@.map_values(|s: String| s@) =~= spec->0);
            v
        },
        None => {
            let v = vec![current_directory, String::from_str(".yoo")];
            assert(v@.map_values(|s: String| s@) =~= seq![current_directory@, ".yoo"@]);
            v
        },
    }
}

} // verus!
