//! The environment and project report of `fetch`: what kind of project a
//! directory holds, how the environment is described, and the lines shown.

use vstd::prelude::*;

use crate::git::{change_status, change_status_text, GitInfo};
use crate::manifest::{go_mod, go_mod_name, json_member, member_text_spec, package_json, Metadata};
use crate::paths::{extension, extension_of, file_name, file_name_of, stem, stem_of};
use crate::process::CommandError;
use crate::text::{
    hex_value, is_digit, is_hex, is_scalar,
    chars_of, chars_are, find_char, first_index, line_bounds, lines, same_chars, starts_with,
    string_of, sub_chars, trim, trim_chars, trimmed,
};
use crate::ui::{divider_line, heading_line, info_line, Ui};

verus! {

/// The whole `fetch` report.
#[derive(Debug, Clone)]
pub struct FetchReport {
    pub yoo_version: String,
    pub environment: EnvironmentInfo,
    pub project: ProjectInfo,
    pub git: Option<GitSummary>,
}

/// The operating system, shell, terminal, editor and tool versions.
#[derive(Debug, Clone)]
pub struct EnvironmentInfo {
    pub os: String,
    pub architecture: String,
    pub shell: String,
    pub terminal: String,
    pub editor: String,
    pub rustc: Option<String>,
    pub cargo: Option<String>,
    pub git: Option<String>,
}

/// The detected project.
#[derive(Debug, Clone)]
pub struct ProjectInfo {
    pub name: String,
    pub kind: String,
    pub manifest: Option<String>,
    pub version: Option<String>,
    pub directory: String,
}

/// Branch and change count.
#[derive(Debug, Clone)]
pub struct GitSummary {
    pub branch: String,
    pub changed_files: usize,
}

/// What a directory holds, as far as project detection looks: the files read
/// or tested are given by their contents where they could be read.
#[derive(Debug, Clone)]
pub struct ProjectProbe {
    /// The directory, as displayed.
    pub directory: String,
    /// The directory's own name, where it has one in Unicode.
    pub directory_name: Option<String>,
    pub cargo_toml: Option<String>,
    pub package_json: Option<String>,
    pub pyproject_toml: bool,
    pub go_mod: Option<String>,
    pub pom_xml: bool,
    pub build_gradle: bool,
    pub build_gradle_kts: bool,
    /// The names of the directory's entries, in the order the directory lists them.
    pub entries: Vec<String>,
}

/// `ProjectInfo` with texts as character sequences.
pub struct ProjectModel {
    pub name: Seq<char>,
    pub kind: Seq<char>,
    pub manifest: Option<Seq<char>>,
    pub version: Option<Seq<char>>,
    pub directory: Seq<char>,
}

pub open spec fn opt_text(o: Option<String>) -> Option<Seq<char>> {
    match o {
        Some(s) => Some(s@),
        None => None,
    }
}

impl View for ProjectInfo {
    type V = ProjectModel;

    open spec fn view(&self) -> ProjectModel {
        ProjectModel {
            name: self.name@,
            kind: self.kind@,
            manifest: opt_text(self.manifest),
            version: opt_text(self.version),
            directory: self.directory@,
        }
    }
}

/// The character that a TOML escape `\e` stands for, for the escapes
/// written with one letter.
pub open spec fn simple_escape(e: char) -> Option<char> {
    if e == 'b' {
        Some('\u{8}')
    } else if e == 't' {
        Some('\t')
    } else if e == 'n' {
        Some('\n')
    } else if e == 'f' {
        Some('\u{c}')
    } else if e == 'r' {
        Some('\r')
    } else if e == '"' {
        Some('"')
    } else if e == '\\' {
        Some('\\')
    } else {
        None
    }
}

/// `c` before the text `rest` stands for, where it stands for one.
pub open spec fn prepend(c: char, rest: Option<Seq<char>>) -> Option<Seq<char>> {
    match rest {
        Some(r) => Some(seq![c] + r),
        None => None,
    }
}

/// The text of a TOML basic string whose opening `"` comes just before `s`:
/// up to the closing `"`, with escapes decoded (`\b`, `\t`, `\n`, `\f`, `\r`,
/// `\"`, `\\`, and `\uXXXX` or `\UXXXXXXXX` naming a Unicode scalar value).
/// Nothing where the string does not close or holds another escape.
pub open spec fn basic_string(s: Seq<char>) -> Option<Seq<char>>
    decreases s.len(),
{
    if s.len() == 0 {
        None
    } else if s[0] == '"' {
        Some(Seq::empty())
    } else if s[0] != '\\' {
        prepend(s[0], basic_string(s.drop_first()))
    } else if s.len() < 2 {
        None
    } else if simple_escape(s[1]) is Some {
        prepend(simple_escape(s[1])->0, basic_string(s.skip(2)))
    } else if s[1] == 'u' || s[1] == 'U' {
        let n: int = if s[1] == 'u' {
            4
        } else {
            8
        };
        if s.len() >= 2 + n && (forall|k: int| 2 <= k < 2 + n ==> is_hex(#[trigger] s[k]))
            && hex_value(s.subrange(2, 2 + n)) <= u32::MAX && is_scalar(
            hex_value(s.subrange(2, 2 + n)) as u32,
        ) {
            prepend(hex_value(s.subrange(2, 2 + n)) as u32 as char, basic_string(s.skip(2 + n)))
        } else {
            None
        }
    } else {
        None
    }
}

/// The text of a TOML literal string whose opening `'` comes just before
/// `s`: up to the closing `'`, taken as it is. Nothing where it does not close.
pub open spec fn literal_string(s: Seq<char>) -> Option<Seq<char>> {
    let k = first_index(s, '\'');
    if k < s.len() {
        Some(s.take(k as int))
    } else {
        None
    }
}

/// Whether every character of `d` is a decimal digit.
pub open spec fn all_digits(d: Seq<char>) -> bool {
    forall|k: int| 0 <= k < d.len() ==> is_digit(#[trigger] d[k])
}

/// The decimal text of a TOML integer written in decimal digits, with an
/// optional sign and no leading zero: the digits, with `-` before them where
/// the value is negative. Nothing for other text.
pub open spec fn integer_text(w: Seq<char>) -> Option<Seq<char>> {
    let signed = w.len() > 0 && (w[0] == '+' || w[0] == '-');
    let d = if signed {
        w.drop_first()
    } else {
        w
    };
    if d.len() > 0 && all_digits(d) && (d.len() == 1 || d[0] != '0') {
        if signed && w[0] == '-' && d != seq!['0'] {
            Some(seq!['-'] + d)
        } else {
            Some(d)
        }
    } else {
        None
    }
}

/// `t` without a comment: the text before the first `#`.
pub open spec fn before_comment(t: Seq<char>) -> Seq<char> {
    t.take(first_index(t, '#') as int)
}

/// The text that a TOML value `v` (trimmed) gives: a basic or literal string,
/// or a decimal integer.
pub open spec fn value_text(v: Seq<char>) -> Option<Seq<char>> {
    if starts_with(v, '"') {
        basic_string(v.drop_first())
    } else if starts_with(v, '\'') {
        literal_string(v.drop_first())
    } else {
        integer_text(trim(before_comment(v)))
    }
}

/// The value that a trimmed line gives `key`: `key = value`.
pub open spec fn toml_value(t: Seq<char>, key: Seq<char>) -> Option<Seq<char>> {
    let eq = first_index(t, '=');
    if eq == t.len() || trim(t.take(eq as int)) != key {
        None
    } else {
        value_text(trim(t.skip((eq + 1) as int)))
    }
}

/// Whether a trimmed line that opens with `[` is the `[package]` table
/// header, spaces inside the brackets and a trailing comment allowed.
pub open spec fn is_package_header(t: Seq<char>) -> bool {
    let h = trim(before_comment(t));
    h.len() >= 2 && h[0] == '[' && h.last() == ']' && trim(h.subrange(1, h.len() - 1)) == "package"@
}

/// The value of the first line that gives `key` in the `[package]` table
/// among `ls`; `in_package` tells whether the lines before stand in that table.
/// A line that gives no value it can read is passed over.
pub open spec fn toml_find(ls: Seq<Seq<char>>, in_package: bool, key: Seq<char>) -> Option<Seq<char>>
    decreases ls.len(),
{
    if ls.len() == 0 {
        None
    } else {
        let t = trim(ls[0]);
        if starts_with(t, '[') {
            toml_find(ls.drop_first(), is_package_header(t), key)
        } else if in_package && toml_value(t, key) is Some {
            toml_value(t, key)
        } else {
            toml_find(ls.drop_first(), in_package, key)
        }
    }
}

/// The value of `key` in the `[package]` table of a `Cargo.toml`: a basic
/// string (escapes decoded), a literal string, or a decimal integer, with a
/// trailing comment ignored; other tables, such as `[workspace.package]`,
/// are not read.
pub open spec fn cargo_value(contents: Seq<char>, key: Seq<char>) -> Option<Seq<char>> {
    toml_find(lines(contents), false, key)
}

fn basic_string_exec(v: &Vec<char>, from: usize) -> (r: Option<Vec<char>>)
    requires
        from <= v@.len(),
    ensures
        match basic_string(v@.skip(from as int)) {
            Some(q) => r matches Some(x) && x@ == q,
            None => r is None,
        },
{
    let mut acc: Vec<char> = Vec::new();
    let mut i = from;
    while i < v.len()
        invariant
            from <= i <= v@.len(),
            basic_string(v@.skip(from as int)) == match basic_string(v@.skip(i as int)) {
                Some(r) => Some(acc@ + r),
                None => None::<Seq<char>>,
            },
        decreases v.len() - i,
    {
        let ghost s = v@.skip(i as int);
        assert(s[0] == v@[i as int]);
        let c = v[i];
        if c == '"' {
            assert(acc@ + Seq::<char>::empty() =~= acc@);
            return Some(acc);
        }
        if c != '\\' {
            assert(s.drop_first() =~= v@.skip(i + 1));
            let ghost before = acc@;
            acc.push(c);
            proof {
                if let Some(r) = basic_string(v@.skip(i + 1)) {
                    assert(acc@ + r =~= before + (seq![c] + r));
                }
            }
            i += 1;
            continue;
        }
        if i + 1 >= v.len() {
            return None;
        }
        let e = v[i + 1];
        assert(s[1] == e);
        let simple: Option<char> = if e == 'b' {
            Some('\u{8}')
        } else if e == 't' {
            Some('\t')
        } else if e == 'n' {
            Some('\n')
        } else if e == 'f' {
            Some('\u{c}')
        } else if e == 'r' {
            Some('\r')
        } else if e == '"' {
            Some('"')
        } else if e == '\\' {
            Some('\\')
        } else {
            None
        };
        assert(simple == simple_escape(e));
        if let Some(d) = simple {
            assert(s.skip(2) =~= v@.skip(i + 2));
            let ghost before = acc@;
            acc.push(d);
            proof {
                if let Some(r) = basic_string(v@.skip(i + 2)) {
                    assert(acc@ + r =~= before + (seq![d] + r));
                }
            }
            i += 2;
            continue;
        }
        if e != 'u' && e != 'U' {
            return None;
        }
        let n: usize = if e == 'u' {
            4
        } else {
            8
        };
        if v.len() - i < 2 + n {
            return None;
        }
        assert(s.subrange(2, 2 + n as int) =~= v@.subrange(i + 2, i + 2 + n));
        let value = match crate::text::hex_chars_value(v, i + 2, i + 2 + n) {
            Some(x) => x,
            None => {
                proof {
                    let k = choose|k: int| i + 2 <= k < i + 2 + n && !is_hex(#[trigger] v@[k]);
                    assert(s[k - i] == v@[k]);
                }
                return None;
            },
        };
        assert forall|k: int| 2 <= k < 2 + n implies is_hex(#[trigger] s[k]) by {
            assert(s[k] == v@[i + k]);
        }
        let c = match crate::text::char_from_u32(value) {
            Some(c) => c,
            None => {
                return None;
            },
        };
        assert(c == value as char);
        assert(s.skip(2 + n as int) =~= v@.skip(i + 2 + n));
        let ghost before = acc@;
        acc.push(c);
        proof {
            if let Some(r) = basic_string(v@.skip(i + 2 + n)) {
                assert(acc@ + r =~= before + (seq![c] + r));
            }
        }
        i += 2 + n;
    }
    assert(v@.skip(i as int).len() == 0);
    None
}

fn integer_exec(w: &Vec<char>) -> (r: Option<Vec<char>>)
    ensures
        match integer_text(w@) {
            Some(q) => r matches Some(x) && x@ == q,
            None => r is None,
        },
{
    let signed = w.len() > 0 && (w[0] == '+' || w[0] == '-');
    let d = if signed {
        sub_chars(w, 1, w.len())
    } else {
        sub_chars(w, 0, w.len())
    };
    assert(signed ==> d@ =~= w@.drop_first());
    assert(!signed ==> d@ =~= w@);
    if d.len() == 0 {
        return None;
    }
    let mut k: usize = 0;
    while k < d.len()
        invariant
            k <= d@.len(),
            d@.len() > 0,
            signed == (w@.len() > 0 && (w@[0] == '+' || w@[0] == '-')),
            signed ==> d@ == w@.drop_first(),
            !signed ==> d@ == w@,
            forall|j: int| 0 <= j < k ==> is_digit(#[trigger] d@[j]),
        decreases d.len() - k,
    {
        if !('0' <= d[k] && d[k] <= '9') {
            proof {
                let sd = if signed {
                    w@.drop_first()
                } else {
                    w@
                };
                assert(sd == d@);
                assert(!is_digit(sd[k as int]));
                assert(!all_digits(sd));
            }
            return None;
        }
        k += 1;
    }
    if d.len() > 1 && d[0] == '0' {
        return None;
    }
    if signed && w[0] == '-' && !(d.len() == 1 && d[0] == '0') {
        let mut r: Vec<char> = vec!['-'];
        let mut tail = d;
        let ghost dv = tail@;
        r.append(&mut tail);
        assert(r@ =~= seq!['-'] + dv);
        assert(dv != seq!['0']);
        Some(r)
    } else {
        proof {
            if signed && w[0] == '-' {
                assert(d@ =~= seq!['0']);
            }
        }
        Some(d)
    }
}

fn value_exec(v: &Vec<char>) -> (r: Option<Vec<char>>)
    ensures
        match value_text(v@) {
            Some(q) => r matches Some(x) && x@ == q,
            None => r is None,
        },
{
    if v.len() > 0 && v[0] == '"' {
        assert(v@.skip(1) =~= v@.drop_first());
        return basic_string_exec(v, 1);
    }
    if v.len() > 0 && v[0] == '\'' {
        let body = sub_chars(v, 1, v.len());
        assert(body@ =~= v@.drop_first());
        let k = find_char(&body, '\'');
        if k < body.len() {
            let q = sub_chars(&body, 0, k);
            assert(q@ =~= body@.take(k as int));
            return Some(q);
        }
        return None;
    }
    let hash = find_char(v, '#');
    let before = sub_chars(v, 0, hash);
    assert(before@ =~= before_comment(v@));
    integer_exec(&trim_chars(&before))
}

fn toml_value_exec(t: &Vec<char>, key: &Vec<char>) -> (r: Option<Vec<char>>)
    ensures
        match toml_value(t@, key@) {
            Some(q) => r matches Some(x) && x@ == q,
            None => r is None,
        },
{
    let eq = find_char(t, '=');
    if eq == t.len() {
        return None;
    }
    let k = trim_chars(&sub_chars(t, 0, eq));
    assert(t@.take(eq as int) == t@.subrange(0, eq as int));
    if !same_chars(&k, key) {
        return None;
    }
    let rest = sub_chars(t, eq + 1, t.len());
    assert(rest@ == t@.skip((eq + 1) as int));
    value_exec(&trim_chars(&rest))
}

fn package_header_exec(t: &Vec<char>) -> (r: bool)
    ensures
        r == is_package_header(t@),
{
    let hash = find_char(t, '#');
    let before = sub_chars(t, 0, hash);
    assert(before@ =~= before_comment(t@));
    let h = trim_chars(&before);
    if h.len() < 2 || h[0] != '[' || h[h.len() - 1] != ']' {
        return false;
    }
    let inner = trim_chars(&sub_chars(&h, 1, h.len() - 1));
    chars_are(&inner, "package")
}

/// The value of `key` in the `[package]` table of a `Cargo.toml`.
pub fn find_toml_string(contents: &str, key: &str) -> (r: Option<String>)
    ensures
        match cargo_value(contents@, key@) {
            Some(v) => r matches Some(s) && s@ == v,
            None => r is None,
        },
{
    let v = chars_of(contents);
    let key_chars = chars_of(key);
    let mut pos: usize = 0;
    let mut in_package = false;
    assert(v@.skip(0) == v@);
    while pos < v.len()
        invariant
            pos <= v@.len(),
            v@ == contents@,
            key_chars@ == key@,
            cargo_value(contents@, key@) == toml_find(lines(v@.skip(pos as int)), in_package, key@),
        decreases v.len() - pos,
    {
        let (end, next) = line_bounds(&v, pos);
        let line = sub_chars(&v, pos, end);
        let ghost ls = lines(v@.skip(pos as int));
        assert(ls[0] == line@);
        assert(ls.drop_first() == lines(v@.skip(next as int)));
        let t = trim_chars(&line);
        if t.len() > 0 && t[0] == '[' {
            in_package = package_header_exec(&t);
        } else if in_package {
            match toml_value_exec(&t, &key_chars) {
                Some(value) => {
                    return Some(string_of(&value));
                },
                None => {},
            }
        }
        pos = next;
    }
    assert(lines(v@.skip(pos as int)).len() == 0);
    None
}

/// The name shown for a directory: its own name, else "current directory".
pub open spec fn directory_name_spec(name: Option<Seq<char>>) -> Seq<char> {
    match name {
        Some(n) => if n.len() > 0 {
            n
        } else {
            "current directory"@
        },
        None => "current directory"@,
    }
}

/// The name shown for a directory whose own name is `name`.
pub fn directory_name(name: &Option<String>) -> (r: String)
    ensures
        r@ == directory_name_spec(opt_text(*name)),
{
    match name {
        Some(n) => if n.as_str().is_empty() {
            String::from_str("current directory")
        } else {
            n.clone()
        },
        None => String::from_str("current directory"),
    }
}

/// Whether a directory entry is a .NET solution or project file.
pub open spec fn is_dotnet(name: Seq<char>) -> bool {
    extension_of(name) == Some("sln"@) || extension_of(name) == Some("csproj"@)
}

/// The index of the first .NET entry, or the number of entries.
pub open spec fn first_dotnet(entries: Seq<Seq<char>>) -> nat
    decreases entries.len(),
{
    if entries.len() == 0 {
        0
    } else if is_dotnet(entries[0]) {
        0
    } else {
        first_dotnet(entries.drop_first()) + 1
    }
}

/// The build file of a Java project: `pom.xml`, else `build.gradle.kts`, else `build.gradle`.
pub open spec fn java_manifest(p: ProjectProbe) -> Seq<char> {
    if p.pom_xml {
        "pom.xml"@
    } else if p.build_gradle_kts {
        "build.gradle.kts"@
    } else {
        "build.gradle"@
    }
}

/// The project that a directory holds. The first manifest found decides, in
/// the order `Cargo.toml`, `package.json`, `pyproject.toml`, `go.mod`, a Java
/// build file, a .NET solution or project; the name comes from `Cargo.toml`,
/// `package.json` or `go.mod` where they give one, else from the directory,
/// and only `Cargo.toml` and `package.json` give a version.
pub open spec fn detect_spec(p: ProjectProbe) -> ProjectModel {
    let fallback = directory_name_spec(opt_text(p.directory_name));
    let entries = p.entries@.map_values(|e: String| e@);
    let d = first_dotnet(entries);
    if p.cargo_toml is Some {
        let c = p.cargo_toml->0@;
        ProjectModel {
            name: match cargo_value(c, "name"@) {
                Some(n) => n,
                None => fallback,
            },
            kind: "Rust"@,
            manifest: Some("Cargo.toml"@),
            version: cargo_value(c, "version"@),
            directory: p.directory@,
        }
    } else if p.package_json is Some {
        let c = p.package_json->0@;
        ProjectModel {
            name: match member_text_spec(json_member(c, "name"@)) {
                Some(n) => n,
                None => fallback,
            },
            kind: "Node.js"@,
            manifest: Some("package.json"@),
            version: member_text_spec(json_member(c, "version"@)),
            directory: p.directory@,
        }
    } else if p.pyproject_toml {
        ProjectModel {
            name: fallback,
            kind: "Python"@,
            manifest: Some("pyproject.toml"@),
            version: None,
            directory: p.directory@,
        }
    } else if p.go_mod is Some {
        ProjectModel {
            name: match go_mod_name(p.go_mod->0@) {
                Some(n) => n,
                None => fallback,
            },
            kind: "Go"@,
            manifest: Some("go.mod"@),
            version: None,
            directory: p.directory@,
        }
    } else if p.pom_xml || p.build_gradle || p.build_gradle_kts {
        ProjectModel {
            name: fallback,
            kind: "Java"@,
            manifest: Some(java_manifest(p)),
            version: None,
            directory: p.directory@,
        }
    } else if d < entries.len() {
        ProjectModel {
            name: fallback,
            kind: ".NET"@,
            manifest: Some(entries[d as int]),
            version: None,
            directory: p.directory@,
        }
    } else {
        ProjectModel {
            name: fallback,
            kind: "Generic directory"@,
            manifest: None,
            version: None,
            directory: p.directory@,
        }
    }
}

proof fn lemma_no_dotnet(entries: Seq<Seq<char>>)
    requires
        forall|i: int| 0 <= i < entries.len() ==> !is_dotnet(#[trigger] entries[i]),
    ensures
        first_dotnet(entries) == entries.len(),
    decreases entries.len(),
{
    if entries.len() > 0 {
        assert forall|i: int| 0 <= i < entries.drop_first().len() implies !is_dotnet(
            #[trigger] entries.drop_first()[i],
        ) by {
            assert(entries.drop_first()[i] == entries[i + 1]);
        }
        lemma_no_dotnet(entries.drop_first());
    }
}

/// The first manifest found decides the kind of project and names its
/// manifest: `Cargo.toml` a Rust project, else `package.json` a Node.js one,
/// else `pyproject.toml` a Python one, else `go.mod` a Go one, else `pom.xml`,
/// `build.gradle.kts` or `build.gradle` (the first of them present) a Java
/// one; a directory with none of these and no .NET entry is a generic
/// directory without manifest.
pub proof fn first_manifest_decides_kind(p: ProjectProbe)
    ensures
        p.cargo_toml is Some ==> detect_spec(p).kind == "Rust"@ && detect_spec(p).manifest == Some(
            "Cargo.toml"@,
        ),
        p.cargo_toml is None && p.package_json is Some ==> detect_spec(p).kind == "Node.js"@
            && detect_spec(p).manifest == Some("package.json"@),
        p.cargo_toml is None && p.package_json is None && p.pyproject_toml ==> detect_spec(p).kind
            == "Python"@ && detect_spec(p).manifest == Some("pyproject.toml"@),
        p.cargo_toml is None && p.package_json is None && !p.pyproject_toml && p.go_mod is Some
            ==> detect_spec(p).kind == "Go"@ && detect_spec(p).manifest == Some("go.mod"@),
        p.cargo_toml is None && p.package_json is None && !p.pyproject_toml && p.go_mod is None
            && p.pom_xml ==> detect_spec(p).kind == "Java"@ && detect_spec(p).manifest == Some(
            "pom.xml"@,
        ),
        p.cargo_toml is None && p.package_json is None && !p.pyproject_toml && p.go_mod is None
            && !p.pom_xml && p.build_gradle_kts ==> detect_spec(p).kind == "Java"@
            && detect_spec(p).manifest == Some("build.gradle.kts"@),
        p.cargo_toml is None && p.package_json is None && !p.pyproject_toml && p.go_mod is None
            && !p.pom_xml && !p.build_gradle_kts && p.build_gradle ==> detect_spec(p).kind
            == "Java"@ && detect_spec(p).manifest == Some("build.gradle"@),
        p.cargo_toml is None && p.package_json is None && !p.pyproject_toml && p.go_mod is None
            && !p.pom_xml && !p.build_gradle_kts && !p.build_gradle && (forall|i: int|
            0 <= i < p.entries@.len() ==> !is_dotnet(#[trigger] p.entries@[i]@)) ==> detect_spec(
            p,
        ).kind == "Generic directory"@ && detect_spec(p).manifest is None,
{
    let entries = p.entries@.map_values(|e: String| e@);
    if forall|i: int| 0 <= i < p.entries@.len() ==> !is_dotnet(#[trigger] p.entries@[i]@) {
        assert forall|i: int| 0 <= i < entries.len() implies !is_dotnet(#[trigger] entries[i]) by {
            assert(entries[i] == p.entries@[i]@);
        }
        lemma_no_dotnet(entries);
    }
}

fn is_dotnet_exec(name: &String) -> (r: bool)
    ensures
        r == is_dotnet(name@),
{
    match extension(&chars_of(name.as_str())) {
        Some(e) => chars_are(&e, "sln") || chars_are(&e, "csproj"),
        None => false,
    }
}

fn project_from_metadata(probe: &ProjectProbe, name: Option<String>, kind: &str, manifest: &str) -> (r:
    ProjectInfo)
    ensures
        r.name@ == match name {
            Some(n) => n@,
            None => directory_name_spec(opt_text(probe.directory_name)),
        },
        r.kind@ == kind@,
        r.manifest matches Some(m) && m@ == manifest@,
        r.version is None,
        r.directory@ == probe.directory@,
{
    ProjectInfo {
        name: match name {
            Some(n) => n,
            None => directory_name(&probe.directory_name),
        },
        kind: String::from_str(kind),
        manifest: Some(String::from_str(manifest)),
        version: None,
        directory: probe.directory.clone(),
    }
}

/// The Node.js project of the probed directory, given the metadata read from
/// its `package.json`: named by it, else by the directory, with its version.
pub fn node_project(probe: &ProjectProbe, metadata: Metadata) -> (r: ProjectInfo)
    ensures
        r.name@ == match metadata.name {
            Some(n) => n@,
            None => directory_name_spec(opt_text(probe.directory_name)),
        },
        r.kind@ == "Node.js"@,
        r.manifest matches Some(m) && m@ == "package.json"@,
        r.version == metadata.version,
        r.directory@ == probe.directory@,
{
    ProjectInfo {
        name: match metadata.name {
            Some(n) => n,
            None => directory_name(&probe.directory_name),
        },
        kind: String::from_str("Node.js"),
        manifest: Some(String::from_str("package.json")),
        version: metadata.version,
        directory: probe.directory.clone(),
    }
}

/// The project that the probed directory holds.
pub fn detect_project(probe: &ProjectProbe) -> (r: ProjectInfo)
    ensures
        r@ == detect_spec(*probe),
{
    let ghost entries = probe.entries@.map_values(|e: String| e@);
    if let Some(contents) = &probe.cargo_toml {
        return ProjectInfo {
            name: match find_toml_string(contents.as_str(), "name") {
                Some(n) => n,
                None => directory_name(&probe.directory_name),
            },
            kind: String::from_str("Rust"),
            manifest: Some(String::from_str("Cargo.toml")),
            version: find_toml_string(contents.as_str(), "version"),
            directory: probe.directory.clone(),
        };
    }
    if let Some(contents) = &probe.package_json {
        return node_project(probe, package_json(contents.as_str()));
    }
    if probe.pyproject_toml {
        return project_from_metadata(probe, None, "Python", "pyproject.toml");
    }
    if let Some(contents) = &probe.go_mod {
        let metadata = go_mod(contents.as_str());
        return project_from_metadata(probe, metadata.name, "Go", "go.mod");
    }
    if probe.pom_xml || probe.build_gradle || probe.build_gradle_kts {
        let manifest = if probe.pom_xml {
            "pom.xml"
        } else if probe.build_gradle_kts {
            "build.gradle.kts"
        } else {
            "build.gradle"
        };
        return project_from_metadata(probe, None, "Java", manifest);
    }
    let mut i: usize = 0;
    assert(entries.skip(0) == entries);
    while i < probe.entries.len()
        invariant
            i <= probe.entries@.len(),
            entries == probe.entries@.map_values(|e: String| e@),
            first_dotnet(entries) == first_dotnet(entries.skip(i as int)) + i,
            probe.cargo_toml is None,
            probe.package_json is None,
            !probe.pyproject_toml,
            probe.go_mod is None,
            !(probe.pom_xml || probe.build_gradle || probe.build_gradle_kts),
        decreases probe.entries.len() - i,
    {
        assert(entries.skip(i as int)[0] == probe.entries@[i as int]@);
        assert(entries.skip(i as int).drop_first() == entries.skip(i + 1));
        if is_dotnet_exec(&probe.entries[i]) {
            let name = probe.entries[i].clone();
            assert(first_dotnet(entries.skip(i as int)) == 0);
            assert(first_dotnet(entries) == i);
            assert(entries[i as int] == name@);
            return ProjectInfo {
                name: directory_name(&probe.directory_name),
                kind: String::from_str(".NET"),
                manifest: Some(name),
                version: None,
                directory: probe.directory.clone(),
            };
        }
        i += 1;
    }
    assert(entries.skip(i as int).len() == 0);
    ProjectInfo {
        name: directory_name(&probe.directory_name),
        kind: String::from_str("Generic directory"),
        manifest: None,
        version: None,
        directory: probe.directory.clone(),
    }
}

/// The name shown for an operating system identifier (`std::env::consts::OS`).
pub open spec fn os_display(os: Seq<char>) -> Seq<char> {
    if os == "windows"@ {
        "Windows"@
    } else if os == "macos"@ {
        "macOS"@
    } else if os == "linux"@ {
        "Linux"@
    } else {
        os
    }
}

/// The name shown for an operating system identifier.
pub fn display_os(os: &str) -> (r: String)
    ensures
        r@ == os_display(os@),
{
    let v = chars_of(os);
    if chars_are(&v, "windows") {
        String::from_str("Windows")
    } else if chars_are(&v, "macos") {
        String::from_str("macOS")
    } else if chars_are(&v, "linux") {
        String::from_str("Linux")
    } else {
        String::from_str(os)
    }
}

/// The program name in a path: the stem of its file name, trimmed, where not empty.
pub open spec fn executable_name_spec(path: Seq<char>, windows: bool) -> Option<Seq<char>> {
    match file_name(path, windows) {
        Some(n) => if trim(stem_of(n)).len() > 0 {
            Some(trim(stem_of(n)))
        } else {
            None
        },
        None => None,
    }
}

/// The program name in a path.
pub fn executable_name(path: &str, windows: bool) -> (r: Option<String>)
    ensures
        match executable_name_spec(path@, windows) {
            Some(n) => r matches Some(s) && s@ == n,
            None => r is None,
        },
{
    match file_name_of(path, windows) {
        Some(n) => {
            let t = trim_chars(&stem(&n));
            if t.len() > 0 {
                Some(string_of(&t))
            } else {
                None
            }
        },
        None => None,
    }
}

/// The shell shown: on Windows PowerShell where `PSModulePath` is set, else
/// the program in `ComSpec` (or "Command Prompt"); otherwise the program in `SHELL`.
pub open spec fn shell_spec(
    windows: bool,
    ps_module_path: bool,
    comspec: Option<Seq<char>>,
    shell: Option<Seq<char>>,
) -> Seq<char> {
    if windows && ps_module_path {
        "PowerShell"@
    } else if windows && comspec is Some {
        match executable_name_spec(comspec->0, windows) {
            Some(n) => n,
            None => "Command Prompt"@,
        }
    } else {
        match shell {
            Some(s) => match executable_name_spec(s, windows) {
                Some(n) => n,
                None => "not detected"@,
            },
            None => "not detected"@,
        }
    }
}

/// The shell shown, from the environment variables that name it.
pub fn detect_shell(
    windows: bool,
    ps_module_path: bool,
    comspec: &Option<String>,
    shell: &Option<String>,
) -> (r: String)
    ensures
        r@ == shell_spec(windows, ps_module_path, opt_text(*comspec), opt_text(*shell)),
{
    if windows {
        if ps_module_path {
            return String::from_str("PowerShell");
        }
        if let Some(c) = comspec {
            return match executable_name(c.as_str(), windows) {
                Some(n) => n,
                None => String::from_str("Command Prompt"),
            };
        }
    }
    match shell {
        Some(s) => match executable_name(s.as_str(), windows) {
            Some(n) => n,
            None => String::from_str("not detected"),
        },
        None => String::from_str("not detected"),
    }
}

/// The terminal shown: Windows Terminal, the trimmed `TERM_PROGRAM`, VS Code's
/// integrated terminal, or the trimmed `TERM` unless it is `dumb`.
pub open spec fn terminal_spec(
    wt_session: bool,
    term_program: Option<Seq<char>>,
    vscode: bool,
    term: Option<Seq<char>>,
) -> Seq<char> {
    if wt_session {
        "Windows Terminal"@
    } else if term_program is Some && trim(term_program->0).len() > 0 {
        trim(term_program->0)
    } else if vscode {
        "VS Code integrated terminal"@
    } else if term is Some && trim(term->0).len() > 0 && trim(term->0) != "dumb"@ {
        trim(term->0)
    } else {
        "not detected"@
    }
}

/// The terminal shown, from the environment.
pub fn detect_terminal(
    wt_session: bool,
    term_program: &Option<String>,
    vscode: bool,
    term: &Option<String>,
) -> (r: String)
    ensures
        r@ == terminal_spec(wt_session, opt_text(*term_program), vscode, opt_text(*term)),
{
    if wt_session {
        return String::from_str("Windows Terminal");
    }
    if let Some(p) = term_program {
        let value = trimmed(p.as_str());
        if !value.as_str().is_empty() {
            return value;
        }
    }
    if vscode {
        return String::from_str("VS Code integrated terminal");
    }
    if let Some(t) = term {
        let value = trimmed(t.as_str());
        if !value.as_str().is_empty() && !crate::text::same_text(value.as_str(), "dumb") {
            return value;
        }
    }
    String::from_str("not detected")
}

/// The editor shown: Visual Studio Code inside its terminal, else the program
/// named by `VISUAL`, or by `EDITOR` where `VISUAL` is unset.
pub open spec fn editor_spec(vscode: bool, visual: Option<Seq<char>>, editor: Option<Seq<char>>) -> Seq<char> {
    let chosen = if visual is Some {
        visual
    } else {
        editor
    };
    if vscode {
        "Visual Studio Code"@
    } else {
        match chosen {
            Some(p) => match executable_name_spec(p, false) {
                Some(n) => n,
                None => "not detected"@,
            },
            None => "not detected"@,
        }
    }
}

/// The editor shown, from the environment.
pub fn detect_editor(vscode: bool, visual: &Option<String>, editor: &Option<String>) -> (r: String)
    ensures
        r@ == editor_spec(vscode, opt_text(*visual), opt_text(*editor)),
{
    if vscode {
        return String::from_str("Visual Studio Code");
    }
    let chosen = if visual.is_some() {
        visual
    } else {
        editor
    };
    match chosen {
        Some(p) => match executable_name(p.as_str(), false) {
            Some(n) => n,
            None => String::from_str("not detected"),
        },
        None => String::from_str("not detected"),
    }
}

/// A tool's version: its trimmed `--version` output, where it ran.
pub fn command_version(outcome: Result<String, CommandError>) -> (r: Option<String>)
    ensures
        match outcome {
            Ok(v) => r matches Some(s) && s@ == trim(v@),
            Err(_) => r is None,
        },
{
    match outcome {
        Ok(v) => Some(trimmed(v.as_str())),
        Err(_) => None,
    }
}

/// The report; a failure of Git is an error, never "not a repository".
pub fn collect(
    yoo_version: &str,
    environment: EnvironmentInfo,
    project: ProjectInfo,
    inspected: Result<Option<GitInfo>, CommandError>,
) -> (r: Result<FetchReport, CommandError>)
    ensures
        match inspected {
            Err(e) => r == Err::<FetchReport, CommandError>(e),
            Ok(g) => r matches Ok(report) && {
                &&& report.yoo_version@ == yoo_version@
                &&& report.environment == environment
                &&& report.project == project
                &&& match g {
                    Some(info) => report.git matches Some(s) && s.branch == info.branch
                        && s.changed_files == info.changed_files,
                    None => report.git is None,
                }
            },
        },
{
    match inspected {
        Err(e) => Err(e),
        Ok(g) => {
            let git = match g {
                Some(info) => Some(GitSummary { branch: info.branch, changed_files: info.changed_files }),
                None => None,
            };
            Ok(FetchReport { yoo_version: String::from_str(yoo_version), environment, project, git })
        },
    }
}

/// The line of a tool's version, or "not found in PATH".
pub open spec fn tool_line(ui: Ui, icon: Seq<char>, label: Seq<char>, version: Option<Seq<char>>) -> Seq<char> {
    info_line(
        ui,
        icon,
        label,
        match version {
            Some(v) => v,
            None => "not found in PATH"@,
        },
    )
}

fn print_tool(ui: &Ui, icon: &str, label: &str, version: &Option<String>) -> (r: String)
    ensures
        r@ == tool_line(*ui, icon@, label@, opt_text(*version)),
{
    match version {
        Some(v) => ui.info(icon, label, v.as_str()),
        None => ui.info(icon, label, "not found in PATH"),
    }
}

/// The lines of the report, in order.
pub open spec fn fetch_lines(r: FetchReport, ui: Ui) -> Seq<Seq<char>> {
    let e = r.environment;
    let p = r.project;
    seq![
        heading_line(ui, "yoo fetch — developer environment"@),
        Seq::<char>::empty(),
        divider_line(ui),
        info_line(ui, "🖥"@, "OS:"@, e.os@ + " ("@ + e.architecture@ + ")"@),
        info_line(ui, "🐚"@, "Shell:"@, e.shell@),
        info_line(ui, "⌨"@, "Terminal:"@, e.terminal@),
        info_line(ui, "📝"@, "Editor:"@, e.editor@),
        divider_line(ui),
        tool_line(ui, "🦀"@, "Rust:"@, opt_text(e.rustc)),
        tool_line(ui, "📦"@, "Cargo:"@, opt_text(e.cargo)),
        tool_line(ui, "🌿"@, "Git:"@, opt_text(e.git)),
        divider_line(ui),
        info_line(ui, "📁"@, "Project:"@, p.name@),
        info_line(ui, "🔧"@, "Project type:"@, p.kind@),
    ] + (match p.manifest {
        Some(m) => seq![info_line(ui, "📄"@, "Manifest:"@, m@)],
        None => Seq::empty(),
    }) + (match p.version {
        Some(v) => seq![info_line(ui, "🏷"@, "Project version:"@, v@)],
        None => Seq::empty(),
    }) + (match r.git {
        Some(g) => seq![
            info_line(ui, "🌿"@, "Git branch:"@, g.branch@),
            info_line(ui, "✏️"@, "Working tree:"@, change_status_text(g.changed_files as nat)),
        ],
        None => seq![info_line(ui, "🌿"@, "Git:"@, "not a repository"@)],
    }) + seq![
        divider_line(ui),
        info_line(
            ui,
            "⚡"@,
            "yoo:"@,
            "v"@ + r.yoo_version@ + " · try `yoo project` for a deeper project overview"@,
        ),
    ]
}

/// The lines that show the report, in order.
pub fn print(report: &FetchReport, ui: &Ui) -> (r: Vec<String>)
    ensures
        r@.map_values(|s: String| s@) == fetch_lines(*report, *ui),
{
    let e = &report.environment;
    let p = &report.project;
    let mut out: Vec<String> = Vec::new();
    out.push(ui.heading("yoo fetch — developer environment"));
    out.push(ui.blank_line());
    out.push(ui.divider());
    let mut os = String::from_str(e.os.as_str());
    os.append(" (");
    os.append(e.architecture.as_str());
    os.append(")");
    out.push(ui.info("🖥", "OS:", os.as_str()));
    out.push(ui.info("🐚", "Shell:", e.shell.as_str()));
    out.push(ui.info("⌨", "Terminal:", e.terminal.as_str()));
    out.push(ui.info("📝", "Editor:", e.editor.as_str()));
    out.push(ui.divider());
    out.push(print_tool(ui, "🦀", "Rust:", &e.rustc));
    out.push(print_tool(ui, "📦", "Cargo:", &e.cargo));
    out.push(print_tool(ui, "🌿", "Git:", &e.git));
    out.push(ui.divider());
    out.push(ui.info("📁", "Project:", p.name.as_str()));
    out.push(ui.info("🔧", "Project type:", p.kind.as_str()));
    if let Some(m) = &p.manifest {
        out.push(ui.info("📄", "Manifest:", m.as_str()));
    }
    if let Some(v) = &p.version {
        out.push(ui.info("🏷", "Project version:", v.as_str()));
    }
    match &report.git {
        Some(g) => {
            out.push(ui.info("🌿", "Git branch:", g.branch.as_str()));
            let status = change_status(g.changed_files);
            out.push(ui.info("✏️", "Working tree:", status.as_str()));
        },
        None => {
            out.push(ui.info("🌿", "Git:", "not a repository"));
        },
    }
    out.push(ui.divider());
    let mut tail = String::from_str("v");
    tail.append(report.yoo_version.as_str());
    tail.append(" · try `yoo project` for a deeper project overview");
    out.push(ui.info("⚡", "yoo:", tail.as_str()));
    assert(out@.map_values(|s: String| s@) =~= fetch_lines(*report, *ui));
    out
}

} // verus!
