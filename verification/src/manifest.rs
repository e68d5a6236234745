//! Project metadata read from manifests: `go.mod` by a reader of its own,
//! `package.json` through `serde_json`.

use vstd::prelude::*;

use crate::fetch::opt_text;
use crate::text::{
    after_last, after_last_chars, chars_of, find_ws, is_ws, line_bounds, lines, same_chars,
    string_of, strip_both, strip_chars, strip_end, sub_chars, trim, trim_chars, trim_start,
    trim_start_chars, ws_index,
};

verus! {

/// Package metadata; each field where the manifest gives it.
#[derive(Debug, Clone, Default, PartialEq, Eq)]
pub struct Metadata {
    pub name: Option<String>,
    pub version: Option<String>,
    pub edition: Option<String>,
    pub license: Option<String>,
}

/// The first whitespace-separated word of `line`, where there is one.
pub open spec fn first_word(line: Seq<char>) -> Option<Seq<char>> {
    let t = trim_start(line);
    if t.len() == 0 {
        None
    } else {
        Some(t.take(ws_index(t) as int))
    }
}

/// `line` after its first whitespace-separated word.
pub open spec fn after_first_word(line: Seq<char>) -> Seq<char> {
    let t = trim_start(line);
    t.skip(ws_index(t) as int)
}

/// The module path that a `go.mod` line declares, where it is a `module` line:
/// the second word, without surrounding quotes.
pub open spec fn module_of_line(line: Seq<char>) -> Option<Seq<char>> {
    match first_word(line) {
        Some(w) => if w == "module"@ {
            match first_word(after_first_word(line)) {
                Some(m) => Some(strip_both(m, '"')),
                None => None,
            }
        } else {
            None
        },
        None => None,
    }
}

/// The module path of the first `module` line among `ls`.
pub open spec fn first_module(ls: Seq<Seq<char>>) -> Option<Seq<char>>
    decreases ls.len(),
{
    if ls.len() == 0 {
        None
    } else {
        match module_of_line(ls[0]) {
            Some(m) => Some(m),
            None => first_module(ls.drop_first()),
        }
    }
}

/// The last path segment of a module path, trimmed, where it is not empty.
pub open spec fn module_name_spec(module: Seq<char>) -> Option<Seq<char>> {
    let name = trim(after_last(strip_end(module, '/'), '/'));
    if name.len() == 0 {
        None
    } else {
        Some(name)
    }
}

/// The name that a `go.mod` declares.
pub open spec fn go_mod_name(contents: Seq<char>) -> Option<Seq<char>> {
    match first_module(lines(contents)) {
        Some(m) => module_name_spec(m),
        None => None,
    }
}

fn module_of_line_exec(line: &Vec<char>) -> (r: Option<Vec<char>>)
    ensures
        match module_of_line(line@) {
            Some(m) => r matches Some(v) && v@ == m,
            None => r is None,
        },
{
    let t = trim_start_chars(line);
    if t.len() == 0 {
        return None;
    }
    let k = find_ws(&t);
    let word = sub_chars(&t, 0, k);
    assert(t@.take(k as int) == word@);
    if !same_chars(&word, &chars_of("module")) {
        return None;
    }
    let rest = sub_chars(&t, k, t.len());
    assert(t@.skip(k as int) == rest@);
    let t2 = trim_start_chars(&rest);
    if t2.len() == 0 {
        return None;
    }
    let k2 = find_ws(&t2);
    let m = sub_chars(&t2, 0, k2);
    assert(t2@.take(k2 as int) == m@);
    Some(strip_chars(&m, '"'))
}

/// The last segment of a module path, where it is not empty.
fn module_name(module: &Vec<char>) -> (r: Option<String>)
    ensures
        match module_name_spec(module@) {
            Some(n) => r matches Some(s) && s@ == n,
            None => r is None,
        },
{
    let mut end = module.len();
    assert(module@.take(end as int) == module@);
    while end > 0 && module[end - 1] == '/'
        invariant
            end <= module@.len(),
            strip_end(module@, '/') == strip_end(module@.take(end as int), '/'),
        decreases end,
    {
        assert(module@.take(end as int).drop_last() == module@.take(end - 1));
        end -= 1;
    }
    let stripped = sub_chars(module, 0, end);
    assert(module@.subrange(0, end as int) == module@.take(end as int));
    let name = trim_chars(&after_last_chars(&stripped, '/'));
    if name.len() == 0 {
        None
    } else {
        Some(string_of(&name))
    }
}

/// The metadata of a `go.mod`: its name, the last segment of the module path.
pub fn go_mod(contents: &str) -> (m: Metadata)
    ensures
        match go_mod_name(contents@) {
            Some(n) => m.name matches Some(s) && s@ == n,
            None => m.name is None,
        },
        m.version is None,
        m.edition is None,
        m.license is None,
{
    let v = chars_of(contents);
    let mut pos: usize = 0;
    let mut module: Option<Vec<char>> = None;
    assert(v@.skip(0) == v@);
    while pos < v.len() && module.is_none()
        invariant
            pos <= v@.len(),
            v@ == contents@,
            module is None ==> first_module(lines(v@)) == first_module(lines(v@.skip(pos as int))),
            module matches Some(found) ==> first_module(lines(v@)) == Some(found@),
        decreases v.len() - pos,
    {
        let (end, next) = line_bounds(&v, pos);
        let line = sub_chars(&v, pos, end);
        let ghost ls = lines(v@.skip(pos as int));
        assert(ls[0] == line@);
        assert(ls.drop_first() == lines(v@.skip(next as int)));
        module = module_of_line_exec(&line);
        pos = next;
    }
    if module.is_none() {
        assert(v@.skip(pos as int).len() == 0);
        assert(lines(v@.skip(pos as int)).len() == 0);
    }
    let name = match module {
        Some(found) => module_name(&found),
        None => None,
    };
    Metadata { name, version: None, edition: None, license: None }
}

/// What a JSON document holds under one key of its top-level object.
#[derive(Debug, Clone, PartialEq, Eq)]
pub enum JsonMember {
    /// The text is not JSON.
    NotJson,
    /// The document is not an object, or the object has no such member.
    Missing,
    Null,
    Bool(bool),
    /// A number, as `serde_json` writes it.
    Number(String),
    /// A string, with its escapes decoded.
    Text(String),
    Array,
    Object,
}

/// `JsonMember` with texts as character sequences.
pub enum JsonMemberView {
    NotJson,
    Missing,
    Null,
    Bool(bool),
    Number(Seq<char>),
    Text(Seq<char>),
    Array,
    Object,
}

impl View for JsonMember {
    type V = JsonMemberView;

    open spec fn view(&self) -> JsonMemberView {
        match self {
            JsonMember::NotJson => JsonMemberView::NotJson,
            JsonMember::Missing => JsonMemberView::Missing,
            JsonMember::Null => JsonMemberView::Null,
            JsonMember::Bool(b) => JsonMemberView::Bool(*b),
            JsonMember::Number(n) => JsonMemberView::Number(n@),
            JsonMember::Text(t) => JsonMemberView::Text(t@),
            JsonMember::Array => JsonMemberView::Array,
            JsonMember::Object => JsonMemberView::Object,
        }
    }
}

/// What `serde_json` reads under the member `key` of the JSON text `contents`.
pub uninterp spec fn json_member(contents: Seq<char>, key: Seq<char>) -> JsonMemberView;

/// Reads `contents` with `serde_json::from_str` into a `serde_json::Value`
/// and takes the member `key` with `Value::get`, telling the member's kind
/// apart one variant each (a number is carried as its `to_string`). Trusted:
/// the result is the named function `json_member` of the two arguments; what
/// JSON text holds which member is not restated here.
#[verifier::external_body]
fn json_member_of(contents: &str, key: &str) -> (r: JsonMember)
    ensures
        r@ == json_member(contents@, key@),
{
    match serde_json::from_str::<serde_json::Value>(contents) {
        Err(_) => JsonMember::NotJson,
        Ok(document) => match document.get(key) {
            None => JsonMember::Missing,
            Some(serde_json::Value::Null) => JsonMember::Null,
            Some(serde_json::Value::Bool(b)) => JsonMember::Bool(*b),
            Some(serde_json::Value::Number(n)) => JsonMember::Number(n.to_string()),
            Some(serde_json::Value::String(t)) => JsonMember::Text(t.clone()),
            Some(serde_json::Value::Array(_)) => JsonMember::Array,
            Some(serde_json::Value::Object(_)) => JsonMember::Object,
        },
    }
}

/// The text a metadata field takes from a JSON member: a string's text or a
/// number as written; nothing from any other member, or where there is none.
pub open spec fn member_text_spec(m: JsonMemberView) -> Option<Seq<char>> {
    match m {
        JsonMemberView::Text(t) => Some(t),
        JsonMemberView::Number(n) => Some(n),
        _ => None,
    }
}

/// The text a metadata field takes from a JSON member.
pub fn member_text(m: JsonMember) -> (r: Option<String>)
    ensures
        opt_text(r) == member_text_spec(m@),
{
    match m {
        JsonMember::Text(t) => Some(t),
        JsonMember::Number(n) => Some(n),
        _ => None,
    }
}

/// The metadata of a `package.json`: its `name`, `version` and `license`
/// members, each where it is a string or a number; no edition.
pub fn package_json(contents: &str) -> (m: Metadata)
    ensures
        opt_text(m.name) == member_text_spec(json_member(contents@, "name"@)),
        opt_text(m.version) == member_text_spec(json_member(contents@, "version"@)),
        opt_text(m.license) == member_text_spec(json_member(contents@, "license"@)),
        m.edition is None,
{
    Metadata {
        name: member_text(json_member_of(contents, "name")),
        version: member_text(json_member_of(contents, "version")),
        edition: None,
        license: member_text(json_member_of(contents, "license")),
    }
}

} // verus!
