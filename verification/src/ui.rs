//! Themes and the lines of decorated terminal output. Each method returns the
//! line to write; the caller writes it.

use vstd::prelude::*;

use crate::args::{FetchOptions, RunOptions};
use crate::config::Config;
use crate::text::{
    chars_of, is_ws, push_char, same_chars, string_of, trim, trim_chars, trim_end, trim_start, trimmed,
};

verus! {

/// The logo.
pub const ART: &'static str = r#"
██╗   ██╗ ██████╗  ██████╗
╚██╗ ██╔╝██╔═══██╗██╔═══██╗
 ╚████╔╝ ██║   ██║██║   ██║
  ╚██╔╝  ██║   ██║██║   ██║
   ██║   ╚██████╔╝╚██████╔╝
   ╚═╝    ╚═════╝  ╚═════╝
"#;

/// The rule printed between sections.
pub const DIVIDER: &'static str = "────────────────────────────────────────";

/// A colour theme.
#[derive(Debug, Clone, Copy, PartialEq, Eq, Structural)]
pub enum Theme {
    Neon,
    Ocean,
    Mono,
    Dracula,
    TokyoNight,
    Gruvbox,
    Nord,
    RosePine,
    Catppuccin,
}

/// `c` lowercased, as far as matching against an ASCII name goes: ASCII
/// capitals become small letters and the Kelvin sign becomes `k`. These are
/// the only characters that `char::to_lowercase` turns into ASCII letters, so
/// `str::to_lowercase(s)` equals an ASCII name exactly when this fold of `s` does.
pub open spec fn fold_char(c: char) -> char {
    if 'A' <= c && c <= 'Z' {
        ((c as u8) + 32) as u8 as char
    } else if c == '\u{212a}' {
        'k'
    } else {
        c
    }
}

/// `s` folded character by character with `fold_char`.
pub open spec fn fold(s: Seq<char>) -> Seq<char> {
    s.map_values(|c: char| fold_char(c))
}

/// The theme that a name denotes, after trimming and lowercasing.
pub open spec fn theme_named(value: Seq<char>) -> Option<Theme> {
    let n = fold(trim(value));
    if n == "neon"@ {
        Some(Theme::Neon)
    } else if n == "ocean"@ {
        Some(Theme::Ocean)
    } else if n == "mono"@ {
        Some(Theme::Mono)
    } else if n == "dracula"@ {
        Some(Theme::Dracula)
    } else if n == "tokyo-night"@ || n == "tokyonight"@ {
        Some(Theme::TokyoNight)
    } else if n == "gruvbox"@ {
        Some(Theme::Gruvbox)
    } else if n == "nord"@ {
        Some(Theme::Nord)
    } else if n == "rose-pine"@ || n == "rosepine"@ {
        Some(Theme::RosePine)
    } else if n == "catppuccin"@ {
        Some(Theme::Catppuccin)
    } else {
        None
    }
}

/// The ANSI colour code of a theme's accent.
pub open spec fn accent_code(t: Theme) -> Seq<char> {
    match t {
        Theme::Neon => "95"@,
        Theme::Ocean => "96"@,
        Theme::Mono => "37"@,
        Theme::Dracula => "95"@,
        Theme::TokyoNight => "94"@,
        Theme::Gruvbox => "93"@,
        Theme::Nord => "96"@,
        Theme::RosePine => "95"@,
        Theme::Catppuccin => "94"@,
    }
}

/// The ANSI colour code of a theme's muted colour.
pub open spec fn muted_code(t: Theme) -> Seq<char> {
    match t {
        Theme::Neon => "92"@,
        Theme::Ocean => "94"@,
        Theme::Mono => "90"@,
        Theme::Dracula => "35"@,
        Theme::TokyoNight => "36"@,
        Theme::Gruvbox => "33"@,
        Theme::Nord => "36"@,
        Theme::RosePine => "35"@,
        Theme::Catppuccin => "36"@,
    }
}

/// The theme names, in the order they are offered.
pub open spec fn theme_names() -> Seq<Seq<char>> {
    seq![
        "neon"@,
        "ocean"@,
        "mono"@,
        "dracula"@,
        "tokyo-night"@,
        "gruvbox"@,
        "nord"@,
        "rose-pine"@,
        "catppuccin"@,
    ]
}

proof fn lemma_plain_name(n: Seq<char>)
    requires
        n.len() > 0,
        !crate::text::is_ws(n[0]),
        !crate::text::is_ws(n.last()),
        forall|k: int| 0 <= k < n.len() ==> !('A' <= #[trigger] n[k] && n[k] <= 'Z') && n[k] != '\u{212a}',
    ensures
        fold(trim(n)) == n,
{
    assert(crate::text::trim_start(n) == n);
    assert(crate::text::trim_end(n) == n);
    assert(fold(n) =~= n);
}

/// The theme of each offered name, in the order the names are offered.
pub open spec fn offered_theme(i: int) -> Theme {
    if i == 0 {
        Theme::Neon
    } else if i == 1 {
        Theme::Ocean
    } else if i == 2 {
        Theme::Mono
    } else if i == 3 {
        Theme::Dracula
    } else if i == 4 {
        Theme::TokyoNight
    } else if i == 5 {
        Theme::Gruvbox
    } else if i == 6 {
        Theme::Nord
    } else if i == 7 {
        Theme::RosePine
    } else {
        Theme::Catppuccin
    }
}

/// Where a theme stands among the offered names.
pub open spec fn offered_index(t: Theme) -> int {
    match t {
        Theme::Neon => 0,
        Theme::Ocean => 1,
        Theme::Mono => 2,
        Theme::Dracula => 3,
        Theme::TokyoNight => 4,
        Theme::Gruvbox => 5,
        Theme::Nord => 6,
        Theme::RosePine => 7,
        Theme::Catppuccin => 8,
    }
}

/// Every theme name offered is read back as its own theme: distinct names
/// give distinct themes, and every theme is offered.
pub proof fn offered_names_are_themes()
    ensures
        forall|i: int|
            0 <= i < theme_names().len() ==> theme_named(#[trigger] theme_names()[i]) == Some(
                offered_theme(i),
            ),
        forall|t: Theme|
            0 <= #[trigger] offered_index(t) < theme_names().len() && offered_theme(offered_index(t)) == t,
{
    reveal_strlit("neon");
    reveal_strlit("ocean");
    reveal_strlit("mono");
    reveal_strlit("dracula");
    reveal_strlit("tokyo-night");
    reveal_strlit("gruvbox");
    reveal_strlit("nord");
    reveal_strlit("rose-pine");
    reveal_strlit("catppuccin");
    reveal_strlit("tokyonight");
    reveal_strlit("rosepine");
    let names = theme_names();
    assert forall|i: int| 0 <= i < names.len() implies theme_named(#[trigger] names[i]) == Some(
        offered_theme(i),
    ) by {
        lemma_plain_name(names[i]);
        assert(names[i][0] == names[i][0]);
        assert(names[i][1] == names[i][1]);
    }
}

proof fn lemma_trim_map(s: Seq<char>, f: spec_fn(char) -> char)
    requires
        forall|c: char| #[trigger] is_ws(f(c)) == is_ws(c),
    ensures
        trim_start(s.map_values(f)) == trim_start(s).map_values(f),
    decreases s.len(),
{
    if s.len() > 0 && is_ws(s[0]) {
        assert(s.map_values(f).drop_first() =~= s.drop_first().map_values(f));
        assert(is_ws(s.map_values(f)[0]) == is_ws(s[0]));
        lemma_trim_map(s.drop_first(), f);
    } else if s.len() > 0 {
        assert(is_ws(s.map_values(f)[0]) == is_ws(s[0]));
    }
}

proof fn lemma_trim_end_map(s: Seq<char>, f: spec_fn(char) -> char)
    requires
        forall|c: char| #[trigger] is_ws(f(c)) == is_ws(c),
    ensures
        trim_end(s.map_values(f)) == trim_end(s).map_values(f),
    decreases s.len(),
{
    if s.len() > 0 && is_ws(s.last()) {
        assert(s.map_values(f).drop_last() =~= s.drop_last().map_values(f));
        assert(is_ws(s.map_values(f).last()) == is_ws(s.last()));
        lemma_trim_end_map(s.drop_last(), f);
    } else if s.len() > 0 {
        assert(is_ws(s.map_values(f).last()) == is_ws(s.last()));
    }
}

proof fn lemma_trim_commutes(s: Seq<char>, f: spec_fn(char) -> char)
    requires
        forall|c: char| #[trigger] is_ws(f(c)) == is_ws(c),
    ensures
        trim(s.map_values(f)) == trim(s).map_values(f),
{
    lemma_trim_map(s, f);
    lemma_trim_end_map(trim_start(s), f);
}

proof fn lemma_trim_start_shape(s: Seq<char>)
    ensures
        trim_start(s).len() > 0 ==> !is_ws(trim_start(s)[0]),
    decreases s.len(),
{
    if s.len() > 0 && is_ws(s[0]) {
        lemma_trim_start_shape(s.drop_first());
    }
}

proof fn lemma_trim_end_shape(t: Seq<char>)
    ensures
        trim_end(t).len() <= t.len(),
        trim_end(t) == t.take(trim_end(t).len() as int),
        trim_end(t).len() > 0 ==> !is_ws(trim_end(t).last()),
    decreases t.len(),
{
    if t.len() > 0 && is_ws(t.last()) {
        lemma_trim_end_shape(t.drop_last());
        assert(t.drop_last().take(trim_end(t).len() as int) =~= t.take(trim_end(t).len() as int));
    } else {
        assert(t.take(t.len() as int) =~= t);
    }
}

proof fn lemma_trim_twice(s: Seq<char>)
    ensures
        trim(trim(s)) == trim(s),
{
    let u = trim(s);
    lemma_trim_start_shape(s);
    lemma_trim_end_shape(trim_start(s));
    if u.len() > 0 {
        assert(u[0] == trim_start(s)[0]);
        assert(trim_start(u) == u);
        assert(trim_end(u) == u);
    }
}

proof fn lemma_fold_char(c: char)
    ensures
        is_ws(fold_char(c)) == is_ws(c),
        fold_char(fold_char(c)) == fold_char(c),
        is_ws(crate::text::lower_ascii_char(c)) == is_ws(c),
        fold_char(crate::text::lower_ascii_char(c)) == fold_char(c),
{
    if 'A' <= c && c <= 'Z' {
        assert(65 <= (c as u8) <= 90);
        assert('a' <= fold_char(c) && fold_char(c) <= 'z');
    }
}

/// Reading a theme name ignores surrounding whitespace and letter case:
/// the name, the name trimmed, the name trimmed and lowercased (as far as
/// lowercasing can give the letters of a theme name), and the name with ASCII
/// capitals made small all denote the same theme, or none.
pub proof fn parse_ignores_space_and_case(s: Seq<char>)
    ensures
        theme_named(trim(s)) == theme_named(s),
        theme_named(fold(trim(s))) == theme_named(s),
        theme_named(crate::text::ascii_lower(s)) == theme_named(s),
{
    let f = |c: char| fold_char(c);
    let g = |c: char| crate::text::lower_ascii_char(c);
    assert forall|c: char| #[trigger] is_ws(f(c)) == is_ws(c) by {
        lemma_fold_char(c);
    }
    assert forall|c: char| #[trigger] is_ws(g(c)) == is_ws(c) by {
        lemma_fold_char(c);
    }
    lemma_trim_twice(s);
    let t = trim(s);
    assert(fold(t) =~= t.map_values(f));
    lemma_trim_commutes(t, f);
    assert(trim(fold(t)) == t.map_values(f));
    assert(fold(trim(fold(t))) =~= fold(t)) by {
        assert forall|k: int| 0 <= k < t.len() implies #[trigger] fold(trim(fold(t)))[k] == fold(t)[k] by {
            lemma_fold_char(t[k]);
        }
    }
    assert(crate::text::ascii_lower(s) =~= s.map_values(g));
    lemma_trim_commutes(s, g);
    assert(fold(trim(crate::text::ascii_lower(s))) =~= fold(t)) by {
        assert forall|k: int| 0 <= k < t.len() implies #[trigger] fold(trim(crate::text::ascii_lower(s)))[k]
            == fold(t)[k] by {
            lemma_fold_char(t[k]);
        }
    }
}

/// Every configuration that loads names a theme that the display accepts.
pub proof fn configured_themes_are_usable(contents: Seq<char>)
    ensures
        crate::config::parse_spec(contents) matches Ok(c) ==> theme_named(c.theme) is Some,
{
}

pub(crate) fn fold_chars(v: &Vec<char>) -> (r: Vec<char>)
    ensures
        r@ == fold(v@),
{
    let mut r: Vec<char> = Vec::new();
    let mut i: usize = 0;
    while i < v.len()
        invariant
            i <= v@.len(),
            r@ == fold(v@.take(i as int)),
        decreases v.len() - i,
    {
        let c = v[i];
        let l = if 'A' <= c && c <= 'Z' {
            ((c as u8) + 32) as char
        } else if c == '\u{212a}' {
            'k'
        } else {
            c
        };
        r.push(l);
        assert(v@.take(i + 1) == v@.take(i as int).push(c));
        i += 1;
    }
    assert(v@.take(v@.len() as int) == v@);
    r
}

impl Theme {
    /// The theme named `value`, ignoring surrounding whitespace and letter case.
    pub fn parse(value: &str) -> (r: Option<Theme>)
        ensures
            r == theme_named(value@),
    {
        let n = fold_chars(&trim_chars(&chars_of(value)));
        if same_chars(&n, &chars_of("neon")) {
            Some(Theme::Neon)
        } else if same_chars(&n, &chars_of("ocean")) {
            Some(Theme::Ocean)
        } else if same_chars(&n, &chars_of("mono")) {
            Some(Theme::Mono)
        } else if same_chars(&n, &chars_of("dracula")) {
            Some(Theme::Dracula)
        } else if same_chars(&n, &chars_of("tokyo-night")) || same_chars(&n, &chars_of("tokyonight")) {
            Some(Theme::TokyoNight)
        } else if same_chars(&n, &chars_of("gruvbox")) {
            Some(Theme::Gruvbox)
        } else if same_chars(&n, &chars_of("nord")) {
            Some(Theme::Nord)
        } else if same_chars(&n, &chars_of("rose-pine")) || same_chars(&n, &chars_of("rosepine")) {
            Some(Theme::RosePine)
        } else if same_chars(&n, &chars_of("catppuccin")) {
            Some(Theme::Catppuccin)
        } else {
            None
        }
    }

    /// The theme names, in the order they are offered.
    pub fn names() -> (r: Vec<&'static str>)
        ensures
            r@.map_values(|s: &str| s@) == theme_names(),
    {
        let r = vec![
            "neon",
            "ocean",
            "mono",
            "dracula",
            "tokyo-night",
            "gruvbox",
            "nord",
            "rose-pine",
            "catppuccin",
        ];
        assert(r@.map_values(|s: &str| s@) =~= theme_names());
        r
    }

    /// The ANSI colour code of the accent.
    pub fn accent(self) -> (r: &'static str)
        ensures
            r@ == accent_code(self),
    {
        match self {
            Theme::Neon => "95",
            Theme::Ocean => "96",
            Theme::Mono => "37",
            Theme::Dracula => "95",
            Theme::TokyoNight => "94",
            Theme::Gruvbox => "93",
            Theme::Nord => "96",
            Theme::RosePine => "95",
            Theme::Catppuccin => "94",
        }
    }

    /// The ANSI colour code of the muted colour.
    pub fn muted(self) -> (r: &'static str)
        ensures
            r@ == muted_code(self),
    {
        match self {
            Theme::Neon => "92",
            Theme::Ocean => "94",
            Theme::Mono => "90",
            Theme::Dracula => "35",
            Theme::TokyoNight => "36",
            Theme::Gruvbox => "33",
            Theme::Nord => "36",
            Theme::RosePine => "35",
            Theme::Catppuccin => "36",
        }
    }
}

/// Decorated output in one theme.
pub struct Ui {
    theme: Theme,
    use_colour: bool,
    typing_speed_ms: u64,
}

/// `text` in the colour `colour`, bold if asked, where colour is in use; else `text` itself.
pub open spec fn painted(use_colour: bool, text: Seq<char>, colour: Seq<char>, bold: bool) -> Seq<char> {
    if !use_colour {
        text
    } else {
        (if bold { "\x1b[1;"@ } else { "\x1b["@ }) + colour + "m"@ + text + "\x1b[0m"@
    }
}

/// A heading line of `ui`.
pub open spec fn heading_line(ui: Ui, text: Seq<char>) -> Seq<char> {
    painted(ui.colour_of(), text, accent_code(ui.theme_of()), true)
}

/// The divider line of `ui`.
pub open spec fn divider_line(ui: Ui) -> Seq<char> {
    painted(ui.colour_of(), DIVIDER@, muted_code(ui.theme_of()), false)
}

/// A labelled value of `ui`: icon and label in the accent colour, a space, the value.
pub open spec fn info_line(ui: Ui, icon: Seq<char>, label: Seq<char>, value: Seq<char>) -> Seq<char> {
    painted(ui.colour_of(), icon + " "@ + label, accent_code(ui.theme_of()), true) + " "@ + value
}

impl Ui {
    /// The theme in use.
    pub closed spec fn theme_of(&self) -> Theme {
        self.theme
    }

    /// Whether colour is in use.
    pub closed spec fn colour_of(&self) -> bool {
        self.use_colour
    }

    /// The delay between typed characters, in milliseconds.
    pub closed spec fn speed_of(&self) -> u64 {
        self.typing_speed_ms
    }

    /// Output in `theme`, coloured where `use_colour`, typing with the given delay per character.
    pub fn new(theme: Theme, use_colour: bool, typing_speed_ms: u64) -> (u: Self)
        ensures
            u.theme_of() == theme,
            u.colour_of() == use_colour,
            u.speed_of() == typing_speed_ms,
    {
        Ui { theme, use_colour, typing_speed_ms }
    }

    /// The delay between typed characters, in milliseconds.
    pub fn typing_speed_ms(&self) -> (r: u64)
        ensures
            r == self.speed_of(),
    {
        self.typing_speed_ms
    }

    /// `text` in `colour`, bold if asked, where colour is in use.
    pub fn paint(&self, text: &str, colour: &str, bold: bool) -> (r: String)
        ensures
            r@ == painted(self.colour_of(), text@, colour@, bold),
    {
        if !self.use_colour {
            return String::from_str(text);
        }
        let mut r = if bold {
            String::from_str("\x1b[1;")
        } else {
            String::from_str("\x1b[")
        };
        r.append(colour);
        r.append("m");
        r.append(text);
        r.append("\x1b[0m");
        r
    }

    /// The logo line block, in the accent colour.
    pub fn print_art(&self) -> (r: String)
        ensures
            r@ == painted(self.colour_of(), trim_end(ART@), accent_code(self.theme_of()), true),
    {
        let v = chars_of(ART);
        let t = crate::text::trim_end_chars(&v);
        let text = string_of(&t);
        self.paint(text.as_str(), self.theme.accent(), true)
    }

    /// A heading line, in the accent colour.
    pub fn heading(&self, text: &str) -> (r: String)
        ensures
            r@ == heading_line(*self, text@),
    {
        self.paint(text, self.theme.accent(), true)
    }

    /// The divider line, in the muted colour.
    pub fn divider(&self) -> (r: String)
        ensures
            r@ == divider_line(*self),
    {
        self.paint(DIVIDER, self.theme.muted(), false)
    }

    /// A labelled value: icon and label in the accent colour, then the value.
    pub fn info(&self, icon: &str, label: &str, value: &str) -> (r: String)
        ensures
            r@ == info_line(*self, icon@, label@, value@),
    {
        let mut key = String::from_str(icon);
        key.append(" ");
        key.append(label);
        let mut r = self.paint(key.as_str(), self.theme.accent(), true);
        r.append(" ");
        r.append(value);
        r
    }

    /// An empty line.
    pub fn blank_line(&self) -> (r: String)
        ensures
            r@ == Seq::<char>::empty(),
    {
        String::new()
    }
}


/// `items` joined by `sep`.
pub open spec fn joined(items: Seq<Seq<char>>, sep: Seq<char>) -> Seq<char>
    decreases items.len(),
{
    if items.len() == 0 {
        Seq::empty()
    } else if items.len() == 1 {
        items[0]
    } else {
        joined(items.drop_last(), sep) + sep + items.last()
    }
}

/// The message for a theme name that names no theme.
pub open spec fn unknown_theme_message(name: Seq<char>) -> Seq<char> {
    "unknown theme `"@ + name + "`; use one of: "@ + joined(theme_names(), ", "@)
}

/// Whether `u` is the output in the theme named `name`, coloured unless
/// `plain`, with the given typing delay.
pub open spec fn ui_as_asked(u: Ui, t: Theme, plain: bool, typing_speed_ms: u64) -> bool {
    u.theme_of() == t && u.colour_of() == !plain && u.speed_of() == typing_speed_ms
}

pub(crate) fn theme_list_text() -> (r: String)
    ensures
        r@ == joined(theme_names(), ", "@),
{
    let names = Theme::names();
    let ghost all = theme_names();
    let mut r = String::new();
    let mut i: usize = 0;
    while i < names.len()
        invariant
            i <= names@.len(),
            names@.map_values(|s: &str| s@) == all,
            all == theme_names(),
            r@ == joined(all.take(i as int), ", "@),
        decreases names.len() - i,
    {
        assert(all[i as int] == names@[i as int]@);
        if i > 0 {
            r.append(", ");
        }
        r.append(names[i]);
        assert(all.take(i + 1).drop_last() =~= all.take(i as int));
        assert(all.take(i + 1).last() == all[i as int]);
        if i == 0 {
            assert(all.take(1)[0] == all[0]);
            assert(joined(all.take(1), ", "@) == all[0]);
        }
        i += 1;
    }
    assert(all.take(i as int) =~= all);
    r
}

/// The output for the theme named `theme_override`, or else for the
/// configured theme. Where the output goes to a terminal it is coloured
/// unless `plain` and types with the given delay; written elsewhere it is
/// never coloured and never delayed. A name that names no theme is an error
/// that lists the theme names.
pub fn ui_for_display(
    config: &Config,
    theme_override: Option<&str>,
    plain: bool,
    typing_speed_ms: u64,
    terminal: bool,
) -> (r: Result<Ui, String>)
    ensures
        ({
            let name = match theme_override {
                Some(t) => t@,
                None => config.theme@,
            };
            let speed = if terminal {
                typing_speed_ms
            } else {
                0
            };
            match theme_named(name) {
                Some(t) => r matches Ok(u) && ui_as_asked(u, t, plain || !terminal, speed),
                None => r matches Err(m) && m@ == unknown_theme_message(name),
            }
        }),
{
    let name: &str = match theme_override {
        Some(t) => t,
        None => config.theme.as_str(),
    };
    match Theme::parse(name) {
        Some(theme) => Ok(
            Ui::new(
                theme,
                !plain && terminal,
                if terminal {
                    typing_speed_ms
                } else {
                    0
                },
            ),
        ),
        None => {
            let mut m = String::from_str("unknown theme `");
            m.append(name);
            m.append("`; use one of: ");
            let list = theme_list_text();
            m.append(list.as_str());
            Err(m)
        },
    }
}

/// The output of a session summary: the asked theme; colour unless plain or
/// written elsewhere than to a terminal; no typing delay where `fast` is asked
/// or the output is not a terminal.
pub fn ui_for_run(config: &Config, options: &RunOptions, terminal: bool) -> (r: Result<Ui, String>)
    ensures
        ({
            let name = match options.theme {
                Some(t) => t@,
                None => config.theme@,
            };
            let speed = if options.fast || !terminal {
                0
            } else {
                config.typing_speed_ms
            };
            match theme_named(name) {
                Some(t) => r matches Ok(u) && ui_as_asked(u, t, options.plain || !terminal, speed),
                None => r matches Err(m) && m@ == unknown_theme_message(name),
            }
        }),
{
    let speed = if options.fast {
        0
    } else {
        config.typing_speed_ms
    };
    match &options.theme {
        Some(t) => ui_for_display(config, Some(t.as_str()), options.plain, speed, terminal),
        None => ui_for_display(config, None, options.plain, speed, terminal),
    }
}

/// The output of the environment report: the asked theme, colour unless
/// plain or written elsewhere than to a terminal, and no typing delay.
pub fn ui_for_fetch(config: &Config, options: &FetchOptions, terminal: bool) -> (r: Result<Ui, String>)
    ensures
        ({
            let name = match options.theme {
                Some(t) => t@,
                None => config.theme@,
            };
            match theme_named(name) {
                Some(t) => r matches Ok(u) && ui_as_asked(u, t, options.plain || !terminal, 0),
                None => r matches Err(m) && m@ == unknown_theme_message(name),
            }
        }),
{
    match &options.theme {
        Some(t) => ui_for_display(config, Some(t.as_str()), options.plain, 0, terminal),
        None => ui_for_display(config, None, options.plain, 0, terminal),
    }
}

/// The lines of the logo before a report: the logo and a blank line where
/// the configuration shows it and `--no-art` is not given; else none.
pub open spec fn art_lines_spec(ui: Ui, show_art: bool, no_art: bool) -> Seq<Seq<char>> {
    if show_art && !no_art {
        seq![
            painted(ui.colour_of(), trim_end(ART@), accent_code(ui.theme_of()), true),
            Seq::<char>::empty(),
        ]
    } else {
        Seq::empty()
    }
}

/// The lines of the logo before a report.
pub fn art_lines(ui: &Ui, config: &Config, no_art: bool) -> (r: Vec<String>)
    ensures
        r@.map_values(|s: String| s@) == art_lines_spec(*ui, config.show_art, no_art),
{
    let mut r: Vec<String> = Vec::new();
    if config.show_art && !no_art {
        r.push(ui.print_art());
        r.push(ui.blank_line());
    }
    assert(r@.map_values(|s: String| s@) =~= art_lines_spec(*ui, config.show_art, no_art));
    r
}

} // verus!
