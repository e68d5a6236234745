//! Tip packs: the built-in packs, local packs read from YAML documents, how
//! local packs take the place of packs of the same name, their order, and
//! the choice of one tip.

use vstd::prelude::*;

use crate::content::{pick, random_index};
use crate::fetch::opt_text;
use crate::paths::{extension, extension_of, stem, stem_of};
use crate::text::{
    ascii_lower, ascii_lowercase, chars_are, chars_of, padded, push_padded, same_chars, string_of, trim,
    trimmed,
};

verus! {

/// The sample pack that `init` writes.
pub const SAMPLE_PACK: &'static str = r#"# Community tip pack for yoo.
# Put more *.yaml or *.yml packs in this folder, then run `yoo tips`.

name: community
description: Tips maintained by the yoo community.
tips:
  - Share a small reproducible example when asking for help.
  - Document the weird workaround before future-you has to rediscover it.
  - A release is not done until someone can install and use it.
"#;

/// The pack a tip is drawn from where none is named.
pub const DEFAULT_PACK: &'static str = "general";

/// Where a pack comes from.
#[derive(Debug, Clone, Copy, PartialEq, Eq, Structural)]
pub enum PackSource {
    BuiltIn,
    Local,
}

/// A named list of tips.
#[derive(Debug, Clone, PartialEq, Eq)]
pub struct TipPack {
    pub name: String,
    pub description: String,
    pub tips: Vec<String>,
    pub source: PackSource,
}

/// A tip pack as a YAML document states it; the name and description may be missing.
#[derive(Debug, Clone, PartialEq, Eq)]
pub struct TipPackDocument {
    pub name: Option<String>,
    pub description: Option<String>,
    pub tips: Vec<String>,
}

/// Why a tip pack could not be read or used.
#[derive(Debug, Clone, PartialEq, Eq)]
pub struct TipError {
    message: String,
}

impl View for TipError {
    type V = Seq<char>;

    closed spec fn view(&self) -> Seq<char> {
        self.message@
    }
}

impl TipError {
    fn new(message: String) -> (e: Self)
        ensures
            e@ == message@,
    {
        TipError { message }
    }

    /// The message, as the error displays it.
    pub fn to_string(&self) -> (s: String)
        ensures
            s@ == self@,
    {
        self.message.clone()
    }
}

/// The characters of each text.
pub open spec fn texts(v: Seq<String>) -> Seq<Seq<char>> {
    v.map_values(|s: String| s@)
}

/// The characters of each literal.
pub open spec fn literals(v: Seq<&str>) -> Seq<Seq<char>> {
    v.map_values(|s: &str| s@)
}

/// The general tips.
pub open spec fn general_tips() -> Seq<Seq<char>> {
    seq![
        "Commit small, meaningful changes before starting the next feature."@,
        "A tiny reproducible bug report beats a vague error description."@,
        "Write the test that would have caught your last bug."@,
        "When stuck, reduce the problem until it looks almost silly."@,
        "Make it work, make it clear, then make it fast."@,
        "A clean README is part of the project, not an afterthought."@,
    ]
}

/// The Rust tips.
pub open spec fn rust_tips() -> Seq<Seq<char>> {
    seq![
        "Run cargo fmt and cargo clippy before you push."@,
        "Prefer Result over panic for errors a caller can recover from."@,
        "Use cargo test often; small tests are cheaper than late debugging."@,
        "Make ownership obvious before reaching for clone()."@,
    ]
}

/// The Git tips.
pub open spec fn git_tips() -> Seq<Seq<char>> {
    seq![
        "Use git diff before git commit when a change feels suspicious."@,
        "Write commit messages that explain why, not only what."@,
        "Push working milestones so your machine is never the only backup."@,
        "Keep unrelated changes out of the same commit."@,
    ]
}

/// The Linux tips.
pub open spec fn linux_tips() -> Seq<Seq<char>> {
    seq![
        "Use rg before grep when you want fast codebase search."@,
        "Read the man page before memorising a command from a random snippet."@,
        "Check permissions before assuming a command is broken."@,
        "Pipe carefully: inspect the output before adding destructive commands."@,
    ]
}

/// The built-in packs as (name, description, tips), in their order.
pub open spec fn built_in_list() -> Seq<(Seq<char>, Seq<char>, Seq<Seq<char>>)> {
    seq![
        ("general"@, "General software-building reminders."@, general_tips()),
        ("rust"@, "Rust workflow and code-quality reminders."@, rust_tips()),
        ("git"@, "Git workflow and backup reminders."@, git_tips()),
        ("linux"@, "Terminal and Linux workflow reminders."@, linux_tips()),
    ]
}

/// Whether `p` is the built-in pack described by `d`.
pub open spec fn is_built_in(p: TipPack, d: (Seq<char>, Seq<char>, Seq<Seq<char>>)) -> bool {
    &&& p.name@ == d.0
    &&& p.description@ == d.1
    &&& texts(p.tips@) == d.2
    &&& p.source == PackSource::BuiltIn
}

fn general_tip_texts() -> (r: Vec<&'static str>)
    ensures
        literals(r@) == general_tips(),
{
    let r = vec![
        "Commit small, meaningful changes before starting the next feature.",
        "A tiny reproducible bug report beats a vague error description.",
        "Write the test that would have caught your last bug.",
        "When stuck, reduce the problem until it looks almost silly.",
        "Make it work, make it clear, then make it fast.",
        "A clean README is part of the project, not an afterthought.",
    ];
    assert(literals(r@) =~= general_tips());
    r
}

fn rust_tip_texts() -> (r: Vec<&'static str>)
    ensures
        literals(r@) == rust_tips(),
{
    let r = vec![
        "Run cargo fmt and cargo clippy before you push.",
        "Prefer Result over panic for errors a caller can recover from.",
        "Use cargo test often; small tests are cheaper than late debugging.",
        "Make ownership obvious before reaching for clone().",
    ];
    assert(literals(r@) =~= rust_tips());
    r
}

fn git_tip_texts() -> (r: Vec<&'static str>)
    ensures
        literals(r@) == git_tips(),
{
    let r = vec![
        "Use git diff before git commit when a change feels suspicious.",
        "Write commit messages that explain why, not only what.",
        "Push working milestones so your machine is never the only backup.",
        "Keep unrelated changes out of the same commit.",
    ];
    assert(literals(r@) =~= git_tips());
    r
}

fn linux_tip_texts() -> (r: Vec<&'static str>)
    ensures
        literals(r@) == linux_tips(),
{
    let r = vec![
        "Use rg before grep when you want fast codebase search.",
        "Read the man page before memorising a command from a random snippet.",
        "Check permissions before assuming a command is broken.",
        "Pipe carefully: inspect the output before adding destructive commands.",
    ];
    assert(literals(r@) =~= linux_tips());
    r
}

/// A built-in pack with the given name, description and tips.
pub fn built_in(name: &str, description: &str, tips: Vec<&'static str>) -> (r: TipPack)
    ensures
        r.name@ == name@,
        r.description@ == description@,
        texts(r.tips@) == literals(tips@),
        r.source == PackSource::BuiltIn,
{
    let mut owned: Vec<String> = Vec::new();
    let mut i: usize = 0;
    while i < tips.len()
        invariant
            i <= tips@.len(),
            texts(owned@) == literals(tips@.take(i as int)),
        decreases tips.len() - i,
    {
        owned.push(String::from_str(tips[i]));
        assert(literals(tips@.take(i + 1)) =~= literals(tips@.take(i as int)).push(tips@[i as int]@));
        assert(texts(owned@) =~= literals(tips@.take(i + 1)));
        i += 1;
    }
    assert(tips@.take(i as int) =~= tips@);
    TipPack {
        name: String::from_str(name),
        description: String::from_str(description),
        tips: owned,
        source: PackSource::BuiltIn,
    }
}

/// The built-in packs: general, rust, git and linux.
pub fn built_in_packs() -> (r: Vec<TipPack>)
    ensures
        r@.len() == built_in_list().len(),
        forall|i: int| 0 <= i < r@.len() ==> is_built_in(#[trigger] r@[i], built_in_list()[i]),
{
    let mut r: Vec<TipPack> = Vec::new();
    r.push(built_in("general", "General software-building reminders.", general_tip_texts()));
    r.push(built_in("rust", "Rust workflow and code-quality reminders.", rust_tip_texts()));
    r.push(built_in("git", "Git workflow and backup reminders.", git_tip_texts()));
    r.push(built_in("linux", "Terminal and Linux workflow reminders.", linux_tip_texts()));
    r
}

/// Whether a file named `name` is a YAML document: its extension, in any
/// ASCII letter case, is `yaml` or `yml`.
pub open spec fn yaml_name(name: Seq<char>) -> bool {
    match extension_of(name) {
        Some(e) => ascii_lower(e) == "yaml"@ || ascii_lower(e) == "yml"@,
        None => false,
    }
}

/// Whether the file named `file_name` is read as a tip pack.
pub fn is_yaml_file(file_name: &str) -> (r: bool)
    ensures
        r == yaml_name(file_name@),
{
    match extension(&chars_of(file_name)) {
        Some(e) => {
            let lower = ascii_lowercase(string_of(&e).as_str());
            chars_are(&lower, "yaml") || chars_are(&lower, "yml")
        },
        None => false,
    }
}

/// The tips of a document that are kept: each trimmed, the empty ones left out.
pub open spec fn kept_tips(tips: Seq<String>) -> Seq<Seq<char>>
    decreases tips.len(),
{
    if tips.len() == 0 {
        Seq::empty()
    } else {
        kept_tips(tips.drop_last()) + if trim(tips.last()@).len() > 0 {
            seq![trim(tips.last()@)]
        } else {
            Seq::empty()
        }
    }
}

/// The name a document gives its pack: its own, else the file's stem, else `community`; trimmed.
pub open spec fn document_name(name: Option<String>, file_name: Option<Seq<char>>) -> Seq<char> {
    trim(
        match name {
            Some(n) => n@,
            None => match file_name {
                Some(f) => stem_of(f),
                None => "community"@,
            },
        },
    )
}

/// The description a document gives its pack, trimmed; a default where it gives none.
pub open spec fn document_description(description: Option<String>) -> Seq<char> {
    trim(
        match description {
            Some(d) => d@,
            None => "Local community tip pack."@,
        },
    )
}

/// `tip pack {path} {what}`.
pub open spec fn pack_problem(path: Seq<char>, what: Seq<char>) -> Seq<char> {
    "tip pack "@ + path + " "@ + what
}

fn problem(path: &str, what: &str) -> (e: TipError)
    ensures
        e@ == pack_problem(path@, what@),
{
    let mut m = String::from_str("tip pack ");
    m.append(path);
    m.append(" ");
    m.append(what);
    TipError::new(m)
}

/// The pack that a local document describes. `file_name` is the name of the
/// file it was read from, where it has one, and `path` the path as shown in
/// messages. A pack whose name is empty, or that keeps no tip, is refused.
pub fn pack_from_document(document: TipPackDocument, file_name: Option<String>, path: &str) -> (r:
    Result<TipPack, TipError>)
    ensures
        match r {
            Ok(p) => {
                &&& document_name(document.name, opt_text(file_name)).len() > 0
                &&& kept_tips(document.tips@).len() > 0
                &&& p.name@ == document_name(document.name, opt_text(file_name))
                &&& p.description@ == document_description(document.description)
                &&& texts(p.tips@) == kept_tips(document.tips@)
                &&& p.source == PackSource::Local
            },
            Err(e) => if document_name(document.name, opt_text(file_name)).len() == 0 {
                e@ == pack_problem(path@, "has an empty name"@)
            } else {
                kept_tips(document.tips@).len() == 0 && e@ == pack_problem(path@, "has no tips"@)
            },
        },
{
    let name = match &document.name {
        Some(n) => trimmed(n.as_str()),
        None => match &file_name {
            Some(f) => trimmed(string_of(&stem(&chars_of(f.as_str()))).as_str()),
            None => trimmed("community"),
        },
    };
    let description = match &document.description {
        Some(d) => trimmed(d.as_str()),
        None => trimmed("Local community tip pack."),
    };
    let mut tips: Vec<String> = Vec::new();
    let mut i: usize = 0;
    while i < document.tips.len()
        invariant
            i <= document.tips@.len(),
            texts(tips@) == kept_tips(document.tips@.take(i as int)),
        decreases document.tips.len() - i,
    {
        let t = trimmed(document.tips[i].as_str());
        let ghost before = tips@;
        assert(document.tips@.take(i + 1).drop_last() =~= document.tips@.take(i as int));
        if !t.as_str().is_empty() {
            tips.push(t);
            assert(texts(tips@) =~= texts(before).push(t@));
        }
        assert(texts(tips@) =~= kept_tips(document.tips@.take(i + 1)));
        i += 1;
    }
    assert(document.tips@.take(i as int) =~= document.tips@);
    if name.as_str().is_empty() {
        return Err(problem(path, "has an empty name"));
    }
    if tips.len() == 0 {
        return Err(problem(path, "has no tips"));
    }
    Ok(TipPack { name, description, tips, source: PackSource::Local })
}


/// Whether two pack names are the same, ignoring ASCII letter case.
pub open spec fn same_name(a: Seq<char>, b: Seq<char>) -> bool {
    ascii_lower(a) == ascii_lower(b)
}

/// No two packs of `s` have the same name, ignoring ASCII letter case.
pub open spec fn distinct_names(s: Seq<TipPack>) -> bool {
    forall|i: int, j: int|
        0 <= i < s.len() && 0 <= j < s.len() && i != j ==> !same_name(
            #[trigger] s[i].name@,
            #[trigger] s[j].name@,
        )
}

/// The index of the first pack of `s` named `name`, ignoring ASCII letter case,
/// or the length of `s`.
pub open spec fn first_named(s: Seq<TipPack>, name: Seq<char>) -> nat
    decreases s.len(),
{
    if s.len() == 0 {
        0
    } else if same_name(s[0].name@, name) {
        0
    } else {
        first_named(s.drop_first(), name) + 1
    }
}

/// `s` with `p` in the place of the first pack of the same name, or `p` added at the end.
pub open spec fn merge_pack(s: Seq<TipPack>, p: TipPack) -> Seq<TipPack> {
    let i = first_named(s, p.name@);
    if i < s.len() {
        s.update(i as int, p)
    } else {
        s.push(p)
    }
}

/// The packs of `s` with each of `local` merged in, in order.
pub open spec fn merge_packs(s: Seq<TipPack>, local: Seq<TipPack>) -> Seq<TipPack>
    decreases local.len(),
{
    if local.len() == 0 {
        s
    } else {
        merge_pack(merge_packs(s, local.drop_last()), local.last())
    }
}

/// `a` is at most `b` in the order of `str::cmp`, which on UTF-8 text is the
/// lexicographic order of code points.
pub open spec fn name_le(a: Seq<char>, b: Seq<char>) -> bool
    decreases a.len(),
{
    if a.len() == 0 {
        true
    } else if b.len() == 0 {
        false
    } else if (a[0] as u32) != (b[0] as u32) {
        (a[0] as u32) < (b[0] as u32)
    } else {
        name_le(a.drop_first(), b.drop_first())
    }
}

/// Packs in order of name.
pub open spec fn sorted_by_name(s: Seq<TipPack>) -> bool {
    forall|i: int, j: int| 0 <= i < j < s.len() ==> name_le(#[trigger] s[i].name@, #[trigger] s[j].name@)
}

/// The index of the first pack of `s` whose name comes after `name`, or the length of `s`.
pub open spec fn first_after(s: Seq<TipPack>, name: Seq<char>) -> nat
    decreases s.len(),
{
    if s.len() == 0 {
        0
    } else if !name_le(s[0].name@, name) {
        0
    } else {
        first_after(s.drop_first(), name) + 1
    }
}

/// `x` placed in `s` after every pack whose name is at most its own.
pub open spec fn insert_by_name(s: Seq<TipPack>, x: TipPack) -> Seq<TipPack> {
    let p = first_after(s, x.name@) as int;
    s.take(p) + seq![x] + s.skip(p)
}

/// `s` in order of name, packs of equal names keeping their order.
pub open spec fn sort_by_name(s: Seq<TipPack>) -> Seq<TipPack>
    decreases s.len(),
{
    if s.len() == 0 {
        s
    } else {
        insert_by_name(sort_by_name(s.drop_last()), s.last())
    }
}

proof fn lemma_name_le_total(a: Seq<char>, b: Seq<char>)
    ensures
        name_le(a, b) || name_le(b, a),
    decreases a.len(),
{
    if a.len() > 0 && b.len() > 0 && (a[0] as u32) == (b[0] as u32) {
        lemma_name_le_total(a.drop_first(), b.drop_first());
    }
}

proof fn lemma_name_le_reflexive(a: Seq<char>)
    ensures
        name_le(a, a),
    decreases a.len(),
{
    if a.len() > 0 {
        lemma_name_le_reflexive(a.drop_first());
    }
}

proof fn lemma_name_le_transitive(a: Seq<char>, b: Seq<char>, c: Seq<char>)
    requires
        name_le(a, b),
        name_le(b, c),
    ensures
        name_le(a, c),
    decreases a.len(),
{
    if a.len() > 0 && b.len() > 0 && c.len() > 0 && (a[0] as u32) == (b[0] as u32) && (b[0] as u32)
        == (c[0] as u32) {
        lemma_name_le_transitive(a.drop_first(), b.drop_first(), c.drop_first());
    }
}

proof fn lemma_first_after(s: Seq<TipPack>, name: Seq<char>)
    ensures
        first_after(s, name) <= s.len(),
        forall|k: int| 0 <= k < first_after(s, name) ==> name_le(#[trigger] s[k].name@, name),
        first_after(s, name) < s.len() ==> !name_le(s[first_after(s, name) as int].name@, name),
    decreases s.len(),
{
    if s.len() > 0 && name_le(s[0].name@, name) {
        lemma_first_after(s.drop_first(), name);
        assert forall|k: int| 0 <= k < first_after(s, name) implies name_le(#[trigger] s[k].name@, name) by {
            if k > 0 {
                assert(s[k] == s.drop_first()[k - 1]);
            }
        }
    }
}

proof fn lemma_insert_by_name(s: Seq<TipPack>, x: TipPack)
    requires
        sorted_by_name(s),
    ensures
        sorted_by_name(insert_by_name(s, x)),
        insert_by_name(s, x).to_multiset() == s.to_multiset().insert(x),
{
    lemma_first_after(s, x.name@);
    let p = first_after(s, x.name@) as int;
    let r = insert_by_name(s, x);
    assert forall|i: int, j: int| 0 <= i < j < r.len() implies name_le(
        #[trigger] r[i].name@,
        #[trigger] r[j].name@,
    ) by {
        if i < p {
            assert(r[i] == s[i]);
        } else if i > p {
            assert(r[i] == s[i - 1]);
        }
        if j < p {
            assert(r[j] == s[j]);
        } else if j > p {
            assert(r[j] == s[j - 1]);
            if i == p {
                assert(!name_le(s[p].name@, x.name@));
                lemma_name_le_total(s[p].name@, x.name@);
                if j - 1 > p {
                    assert(name_le(s[p].name@, s[j - 1].name@));
                } else {
                    lemma_name_le_reflexive(s[p].name@);
                }
                lemma_name_le_transitive(x.name@, s[p].name@, s[j - 1].name@);
            } else if i < p {
                assert(name_le(s[i].name@, s[j - 1].name@));
            }
        } else {
            if i < p {
                assert(name_le(s[i].name@, x.name@));
            }
        }
    }
    broadcast use vstd::seq_lib::group_to_multiset_ensures, vstd::multiset::group_multiset_axioms;

    let a = s.take(p);
    let b = s.skip(p);
    vstd::seq_lib::lemma_multiset_commutative(a.push(x), b);
    vstd::seq_lib::lemma_multiset_commutative(a, b);
    assert(a + seq![x] == a.push(x));
    assert(a + b == s);
    assert(r == a.push(x) + b);
    assert(r.to_multiset() =~= s.to_multiset().insert(x));
}

/// Sorting by name yields packs in order of name, and the same packs.
pub proof fn sort_by_name_is_sorted(s: Seq<TipPack>)
    ensures
        sorted_by_name(sort_by_name(s)),
        sort_by_name(s).to_multiset() == s.to_multiset(),
    decreases s.len(),
{
    broadcast use vstd::seq_lib::group_to_multiset_ensures, vstd::multiset::group_multiset_axioms;

    if s.len() > 0 {
        sort_by_name_is_sorted(s.drop_last());
        lemma_insert_by_name(sort_by_name(s.drop_last()), s.last());
        assert(s.drop_last().push(s.last()) == s);
    } else {
        assert(s.to_multiset().len() == 0);
        assert(sort_by_name(s) == s);
    }
}

proof fn lemma_first_named(s: Seq<TipPack>, name: Seq<char>)
    ensures
        first_named(s, name) <= s.len(),
        forall|k: int| 0 <= k < first_named(s, name) ==> !same_name(#[trigger] s[k].name@, name),
        first_named(s, name) < s.len() ==> same_name(s[first_named(s, name) as int].name@, name),
    decreases s.len(),
{
    if s.len() > 0 && !same_name(s[0].name@, name) {
        lemma_first_named(s.drop_first(), name);
        assert forall|k: int| 0 <= k < first_named(s, name) implies !same_name(#[trigger] s[k].name@, name) by {
            if k > 0 {
                assert(s[k] == s.drop_first()[k - 1]);
            }
        }
    }
}

/// A pack merged into packs of distinct names takes the place of the pack of
/// the same name, or is added where there is none: afterwards it is among
/// the packs, every pack of another name stays, and the names stay distinct.
pub proof fn merged_pack_takes_its_place(s: Seq<TipPack>, p: TipPack)
    requires
        distinct_names(s),
    ensures
        merge_pack(s, p).contains(p),
        distinct_names(merge_pack(s, p)),
        forall|q: TipPack| #[trigger] s.contains(q) && !same_name(q.name@, p.name@) ==> merge_pack(
            s,
            p,
        ).contains(q),
        forall|q: TipPack| #[trigger] merge_pack(s, p).contains(q) ==> q == p || s.contains(q),
{
    lemma_first_named(s, p.name@);
    let i = first_named(s, p.name@) as int;
    let r = merge_pack(s, p);
    if i < s.len() {
        assert(r[i] == p);
        assert forall|q: TipPack| #[trigger] s.contains(q) && !same_name(q.name@, p.name@) implies r.contains(q) by {
            let k = choose|k: int| 0 <= k < s.len() && s[k] == q;
            assert(k != i);
            assert(r[k] == q);
        }
        assert forall|q: TipPack| #[trigger] r.contains(q) implies q == p || s.contains(q) by {
            let k = choose|k: int| 0 <= k < r.len() && r[k] == q;
            if k != i {
                assert(s[k] == q);
            }
        }
        assert forall|a: int, b: int| 0 <= a < r.len() && 0 <= b < r.len() && a != b implies !same_name(
            #[trigger] r[a].name@,
            #[trigger] r[b].name@,
        ) by {
            if a == i {
                assert(!same_name(s[i].name@, s[b].name@));
            } else if b == i {
                assert(!same_name(s[a].name@, s[i].name@));
            } else {
                assert(r[a] == s[a] && r[b] == s[b]);
            }
        }
    } else {
        assert(r[s.len() as int] == p);
        assert forall|q: TipPack| #[trigger] s.contains(q) && !same_name(q.name@, p.name@) implies r.contains(q) by {
            let k = choose|k: int| 0 <= k < s.len() && s[k] == q;
            assert(r[k] == q);
        }
        assert forall|q: TipPack| #[trigger] r.contains(q) implies q == p || s.contains(q) by {
            let k = choose|k: int| 0 <= k < r.len() && r[k] == q;
            if k < s.len() {
                assert(s[k] == q);
            }
        }
        assert forall|a: int, b: int| 0 <= a < r.len() && 0 <= b < r.len() && a != b implies !same_name(
            #[trigger] r[a].name@,
            #[trigger] r[b].name@,
        ) by {
            if a == s.len() {
                assert(!same_name(s[b].name@, p.name@));
            } else if b == s.len() {
                assert(!same_name(s[a].name@, p.name@));
            } else {
                assert(r[a] == s[a] && r[b] == s[b]);
            }
        }
    }
}

/// Merging local packs one after another into packs of distinct names keeps the names distinct.
pub proof fn merged_names_stay_distinct(s: Seq<TipPack>, local: Seq<TipPack>)
    requires
        distinct_names(s),
    ensures
        distinct_names(merge_packs(s, local)),
    decreases local.len(),
{
    if local.len() > 0 {
        merged_names_stay_distinct(s, local.drop_last());
        merged_pack_takes_its_place(merge_packs(s, local.drop_last()), local.last());
    }
}

proof fn lemma_insert_distinct(s: Seq<TipPack>, x: TipPack)
    requires
        distinct_names(s),
        forall|k: int| 0 <= k < s.len() ==> !same_name(#[trigger] s[k].name@, x.name@),
    ensures
        distinct_names(insert_by_name(s, x)),
{
    lemma_first_after(s, x.name@);
    let p = first_after(s, x.name@) as int;
    let r = insert_by_name(s, x);
    assert forall|a: int, b: int| 0 <= a < r.len() && 0 <= b < r.len() && a != b implies !same_name(
        #[trigger] r[a].name@,
        #[trigger] r[b].name@,
    ) by {
        let sa = if a < p { a } else { a - 1 };
        let sb = if b < p { b } else { b - 1 };
        if a != p {
            assert(r[a] == s[sa]);
        }
        if b != p {
            assert(r[b] == s[sb]);
        }
        if a == p {
            assert(!same_name(s[sb].name@, x.name@));
        } else if b == p {
            assert(!same_name(s[sa].name@, x.name@));
        }
    }
}

/// Sorting packs of distinct names keeps the names distinct.
pub proof fn sorted_names_stay_distinct(s: Seq<TipPack>)
    requires
        distinct_names(s),
    ensures
        distinct_names(sort_by_name(s)),
    decreases s.len(),
{
    broadcast use vstd::seq_lib::group_to_multiset_ensures;

    if s.len() > 0 {
        let rest = s.drop_last();
        assert(distinct_names(rest)) by {
            assert forall|a: int, b: int| 0 <= a < rest.len() && 0 <= b < rest.len() && a != b implies !same_name(
                #[trigger] rest[a].name@,
                #[trigger] rest[b].name@,
            ) by {
                assert(rest[a] == s[a] && rest[b] == s[b]);
            }
        }
        sorted_names_stay_distinct(rest);
        sort_by_name_is_sorted(rest);
        let sorted = sort_by_name(rest);
        assert forall|k: int| 0 <= k < sorted.len() implies !same_name(#[trigger] sorted[k].name@, s.last().name@) by {
            assert(sorted.contains(sorted[k]));
            assert(sorted.to_multiset().count(sorted[k]) > 0);
            assert(rest.contains(sorted[k]));
            let m = choose|m: int| 0 <= m < rest.len() && rest[m] == sorted[k];
            assert(s[m] == sorted[k]);
            assert(s[s.len() - 1] == s.last());
        }
        lemma_insert_distinct(sorted, s.last());
    }
}

/// Whether two pack names are the same, ignoring ASCII letter case.
pub fn names_match(a: &str, b: &str) -> (r: bool)
    ensures
        r == same_name(a@, b@),
{
    same_chars(&ascii_lowercase(a), &ascii_lowercase(b))
}

/// Whether the name `a` comes no later than `b` in the order of `str::cmp`.
pub fn name_at_most(a: &str, b: &str) -> (r: bool)
    ensures
        r == name_le(a@, b@),
{
    let x = chars_of(a);
    let y = chars_of(b);
    let mut i: usize = 0;
    assert(x@.skip(0) =~= x@);
    assert(y@.skip(0) =~= y@);
    while i < x.len()
        invariant
            i <= x@.len(),
            x@ == a@,
            y@ == b@,
            i <= y@.len(),
            name_le(a@, b@) == name_le(x@.skip(i as int), y@.skip(i as int)),
        decreases x.len() - i,
    {
        if i == y.len() {
            return false;
        }
        let c = x[i] as u32;
        let d = y[i] as u32;
        assert(x@.skip(i as int)[0] == x@[i as int]);
        assert(y@.skip(i as int)[0] == y@[i as int]);
        if c != d {
            return c < d;
        }
        assert(x@.skip(i as int).drop_first() == x@.skip(i + 1));
        assert(y@.skip(i as int).drop_first() == y@.skip(i + 1));
        i += 1;
    }
    true
}

/// The packs of `packs` with each of `local` merged in, in turn, then sorted by name.
pub fn merge_and_sort(packs: Vec<TipPack>, local: Vec<TipPack>) -> (r: Vec<TipPack>)
    ensures
        r@ == sort_by_name(merge_packs(packs@, local@)),
        sorted_by_name(r@),
        r@.to_multiset() == merge_packs(packs@, local@).to_multiset(),
{
    let ghost input = local@;
    let mut merged = packs;
    let mut rest = local;
    let mut i: usize = 0;
    let n = rest.len();
    assert(input.take(0) =~= Seq::<TipPack>::empty());
    while rest.len() > 0
        invariant
            i + rest@.len() == n == input.len(),
            rest@ == input.skip(i as int),
            merged@ == merge_packs(packs@, input.take(i as int)),
        decreases rest.len(),
    {
        let p = rest.remove(0);
        assert(p == input[i as int]);
        assert(rest@ =~= input.skip(i + 1));
        let ghost before = merged@;
        let mut k: usize = 0;
        assert(before.skip(0) =~= before);
        while k < merged.len() && !names_match(merged[k].name.as_str(), p.name.as_str())
            invariant
                k <= merged@.len(),
                merged@ == before,
                first_named(before, p.name@) == first_named(before.skip(k as int), p.name@) + k,
            decreases merged.len() - k,
        {
            assert(before.skip(k as int).drop_first() =~= before.skip(k + 1));
            k += 1;
        }
        proof {
            if k == merged@.len() {
                assert(before.skip(k as int).len() == 0);
            }
            assert(input.take(i + 1).drop_last() =~= input.take(i as int));
            assert(input.take(i + 1).last() == p);
        }
        if k < merged.len() {
            merged.set(k, p);
        } else {
            merged.push(p);
        }
        assert(merged@ =~= merge_pack(before, input[i as int]));
        i += 1;
    }
    assert(input.take(n as int) =~= input);
    let ghost all = merged@;
    let mut rest = merged;
    let mut r: Vec<TipPack> = Vec::new();
    let mut j: usize = 0;
    let m = rest.len();
    assert(all.take(0) =~= Seq::<TipPack>::empty());
    while rest.len() > 0
        invariant
            j + rest@.len() == m == all.len(),
            rest@ == all.skip(j as int),
            r@ == sort_by_name(all.take(j as int)),
        decreases rest.len(),
    {
        let x = rest.remove(0);
        assert(x == all[j as int]);
        assert(rest@ =~= all.skip(j + 1));
        let ghost before = r@;
        let mut p: usize = 0;
        assert(before.skip(0) =~= before);
        while p < r.len() && name_at_most(r[p].name.as_str(), x.name.as_str())
            invariant
                p <= r@.len(),
                r@ == before,
                first_after(before, x.name@) == first_after(before.skip(p as int), x.name@) + p,
            decreases r.len() - p,
        {
            assert(before.skip(p as int).drop_first() =~= before.skip(p + 1));
            p += 1;
        }
        proof {
            if p == r@.len() {
                assert(before.skip(p as int).len() == 0);
            }
            assert(all.take(j + 1).drop_last() =~= all.take(j as int));
            assert(all.take(j + 1).last() == x);
        }
        r.insert(p, x);
        assert(r@ =~= insert_by_name(before, x));
        j += 1;
    }
    assert(all.take(m as int) =~= all);
    proof {
        sort_by_name_is_sorted(all);
    }
    r
}

/// Whether `b` describes the built-in packs, in their order.
pub open spec fn are_built_ins(b: Seq<TipPack>) -> bool {
    b.len() == built_in_list().len() && forall|i: int|
        0 <= i < b.len() ==> is_built_in(#[trigger] b[i], built_in_list()[i])
}

proof fn lemma_built_ins_distinct(b: Seq<TipPack>)
    requires
        are_built_ins(b),
    ensures
        distinct_names(b),
{
    reveal_strlit("general");
    reveal_strlit("rust");
    reveal_strlit("git");
    reveal_strlit("linux");
    assert(b[0].name@.len() == 7 && b[1].name@.len() == 4 && b[2].name@.len() == 3 && b[3].name@.len()
        == 5) by {
        assert(is_built_in(b[0], built_in_list()[0]));
        assert(is_built_in(b[1], built_in_list()[1]));
        assert(is_built_in(b[2], built_in_list()[2]));
        assert(is_built_in(b[3], built_in_list()[3]));
    }
    assert forall|i: int, j: int| 0 <= i < b.len() && 0 <= j < b.len() && i != j implies !same_name(
        #[trigger] b[i].name@,
        #[trigger] b[j].name@,
    ) by {
        assert(ascii_lower(b[i].name@).len() == b[i].name@.len());
        assert(ascii_lower(b[j].name@).len() == b[j].name@.len());
    }
}

proof fn lemma_name_kept(s: Seq<TipPack>, local: Seq<TipPack>, name: Seq<char>)
    requires
        distinct_names(s),
        exists|i: int| 0 <= i < s.len() && same_name(#[trigger] s[i].name@, name),
    ensures
        exists|i: int|
            0 <= i < merge_packs(s, local).len() && same_name(#[trigger] merge_packs(s, local)[i].name@, name),
    decreases local.len(),
{
    if local.len() == 0 {
        let i = choose|i: int| 0 <= i < s.len() && same_name(#[trigger] s[i].name@, name);
        assert(merge_packs(s, local) == s);
        assert(same_name(merge_packs(s, local)[i].name@, name));
    } else {
        lemma_name_kept(s, local.drop_last(), name);
        merged_names_stay_distinct(s, local.drop_last());
        let m = merge_packs(s, local.drop_last());
        let p = local.last();
        merged_pack_takes_its_place(m, p);
        let i = choose|i: int| 0 <= i < m.len() && same_name(#[trigger] m[i].name@, name);
        let r = merge_pack(m, p);
        assert(r == merge_packs(s, local));
        if same_name(m[i].name@, p.name@) {
            let k = choose|k: int| 0 <= k < r.len() && r[k] == p;
            assert(same_name(r[k].name@, name));
        } else {
            assert(m.contains(m[i]));
            assert(r.contains(m[i]));
            let k = choose|k: int| 0 <= k < r.len() && r[k] == m[i];
            assert(same_name(r[k].name@, name));
        }
    }
}

/// The general pack is always on offer, under its name in some letter case:
/// local packs can take its place but never remove its name.
pub proof fn general_pack_is_always_offered(b: Seq<TipPack>, local: Seq<TipPack>)
    requires
        are_built_ins(b),
    ensures
        exists|i: int|
            0 <= i < sort_by_name(merge_packs(b, local)).len() && same_name(
                #[trigger] sort_by_name(merge_packs(b, local))[i].name@,
                "general"@,
            ),
{
    broadcast use vstd::seq_lib::group_to_multiset_ensures;

    reveal_strlit("general");
    lemma_built_ins_distinct(b);
    assert(is_built_in(b[0], built_in_list()[0]));
    assert(same_name(b[0].name@, "general"@));
    lemma_name_kept(b, local, "general"@);
    let m = merge_packs(b, local);
    let i = choose|i: int| 0 <= i < m.len() && same_name(#[trigger] m[i].name@, "general"@);
    sort_by_name_is_sorted(m);
    let sorted = sort_by_name(m);
    assert(m.contains(m[i]));
    assert(m.to_multiset().count(m[i]) > 0);
    assert(sorted.contains(m[i]));
    let k = choose|k: int| 0 <= k < sorted.len() && sorted[k] == m[i];
    assert(same_name(sorted[k].name@, "general"@));
}

proof fn lemma_merge_split(s: Seq<TipPack>, a: Seq<TipPack>, c: Seq<TipPack>)
    ensures
        merge_packs(s, a + c) == merge_packs(merge_packs(s, a), c),
    decreases c.len(),
{
    if c.len() == 0 {
        assert(a + c =~= a);
    } else {
        lemma_merge_split(s, a, c.drop_last());
        assert((a + c).drop_last() =~= a + c.drop_last());
        assert((a + c).last() == c.last());
    }
}

/// Every local pack's name is on offer, in some letter case: a later pack of
/// the same name may take its place, but the name stays.
pub proof fn local_pack_names_are_offered(b: Seq<TipPack>, local: Seq<TipPack>, k: int)
    requires
        are_built_ins(b),
        0 <= k < local.len(),
    ensures
        exists|i: int|
            0 <= i < sort_by_name(merge_packs(b, local)).len() && same_name(
                #[trigger] sort_by_name(merge_packs(b, local))[i].name@,
                local[k].name@,
            ),
{
    broadcast use vstd::seq_lib::group_to_multiset_ensures;

    let a = local.take(k + 1);
    let c = local.skip(k + 1);
    assert(a + c =~= local);
    lemma_merge_split(b, a, c);
    lemma_built_ins_distinct(b);
    merged_names_stay_distinct(b, a.drop_last());
    let before = merge_packs(b, a.drop_last());
    assert(a.last() == local[k]);
    merged_pack_takes_its_place(before, local[k]);
    let after = merge_packs(b, a);
    assert(after == merge_pack(before, local[k]));
    let j = choose|j: int| 0 <= j < after.len() && after[j] == local[k];
    assert(same_name(after[j].name@, local[k].name@));
    merged_names_stay_distinct(b, a);
    lemma_name_kept(after, c, local[k].name@);
    let m = merge_packs(b, local);
    let i = choose|i: int| 0 <= i < m.len() && same_name(#[trigger] m[i].name@, local[k].name@);
    sort_by_name_is_sorted(m);
    let sorted = sort_by_name(m);
    assert(m.contains(m[i]));
    assert(m.to_multiset().count(m[i]) > 0);
    assert(sorted.contains(m[i]));
    let q = choose|q: int| 0 <= q < sorted.len() && sorted[q] == m[i];
    assert(same_name(sorted[q].name@, local[k].name@));
}

/// The packs on offer: the built-in ones with the local ones merged in, in
/// turn (a local pack takes the place of the pack of the same name, ignoring
/// ASCII letter case, or joins the list), sorted by name; each name once.
pub fn list_packs(local: Vec<TipPack>) -> (r: Vec<TipPack>)
    ensures
        exists|b: Seq<TipPack>| #[trigger]
            are_built_ins(b) && r@ == sort_by_name(merge_packs(b, local@)),
        sorted_by_name(r@),
        distinct_names(r@),
{
    let built = built_in_packs();
    let ghost b = built@;
    assert(are_built_ins(b));
    let ghost l = local@;
    let r = merge_and_sort(built, local);
    proof {
        lemma_built_ins_distinct(b);
        merged_names_stay_distinct(b, l);
        sorted_names_stay_distinct(merge_packs(b, l));
    }
    r
}

/// The message for a pack that is not on offer.
pub open spec fn not_found_message(name: Seq<char>) -> Seq<char> {
    "tip pack `"@ + name + "` was not found; run `yoo tips` to see available packs"@
}

/// The message for a pack without tips.
pub open spec fn no_tips_message(name: Seq<char>) -> Seq<char> {
    "tip pack `"@ + name + "` has no tips"@
}

/// One tip of the pack named `pack_name` (surrounding whitespace and ASCII
/// letter case aside) among `packs`: the first pack of that name, and in it
/// the tip that the clock reading and the process id pick.
pub fn random_tip(pack_name: &str, packs: &Vec<TipPack>, now_nanos: u64, pid: u32) -> (r: Result<
    String,
    TipError,
>)
    ensures
        ({
            let k = first_named(packs@, trim(pack_name@)) as int;
            if k >= packs@.len() {
                r matches Err(e) && e@ == not_found_message(trim(pack_name@))
            } else if packs@[k].tips@.len() == 0 {
                r matches Err(e) && e@ == no_tips_message(packs@[k].name@)
            } else {
                r matches Ok(t) && t@ == packs@[k].tips@[pick(
                    packs@[k].tips@.len() as usize,
                    0xD4,
                    now_nanos,
                    pid,
                ) as int]@
            }
        }),
{
    let wanted = trimmed(pack_name);
    let mut k: usize = 0;
    assert(packs@.skip(0) =~= packs@);
    while k < packs.len() && !names_match(packs[k].name.as_str(), wanted.as_str())
        invariant
            k <= packs@.len(),
            wanted@ == trim(pack_name@),
            first_named(packs@, wanted@) == first_named(packs@.skip(k as int), wanted@) + k,
        decreases packs.len() - k,
    {
        assert(packs@.skip(k as int).drop_first() =~= packs@.skip(k + 1));
        k += 1;
    }
    if k == packs.len() {
        assert(packs@.skip(k as int).len() == 0);
        let mut m = String::from_str("tip pack `");
        m.append(wanted.as_str());
        m.append("` was not found; run `yoo tips` to see available packs");
        return Err(TipError::new(m));
    }
    assert(packs@.skip(k as int)[0] == packs@[k as int]);
    let pack = &packs[k];
    if pack.tips.len() == 0 {
        let mut m = String::from_str("tip pack `");
        m.append(pack.name.as_str());
        m.append("` has no tips");
        return Err(TipError::new(m));
    }
    let index = random_index(pack.tips.len(), 0xD4, now_nanos, pid);
    Ok(pack.tips[index].clone())
}

/// The label of a pack's source.
pub open spec fn source_label(source: PackSource) -> Seq<char> {
    match source {
        PackSource::BuiltIn => "built-in"@,
        PackSource::Local => "local"@,
    }
}

/// The line that lists one pack.
pub open spec fn pack_line(p: TipPack) -> Seq<char> {
    "- "@ + padded(p.name@, 12) + " ["@ + source_label(p.source) + "] "@ + p.description@
}

/// The lines that list the packs, then say where local packs go.
pub open spec fn pack_list_lines(packs: Seq<TipPack>, directory: Seq<char>) -> Seq<Seq<char>> {
    seq!["Available yoo tip packs:"@, Seq::<char>::empty()] + packs.map_values(|p: TipPack| pack_line(p))
        + seq![Seq::<char>::empty(), "Add community packs as YAML files in:"@, directory]
}

fn pack_line_text(p: &TipPack) -> (r: String)
    ensures
        r@ == pack_line(*p),
{
    let mut r = String::from_str("- ");
    push_padded(&mut r, p.name.as_str(), 12);
    r.append(" [");
    match p.source {
        PackSource::BuiltIn => r.append("built-in"),
        PackSource::Local => r.append("local"),
    }
    r.append("] ");
    r.append(p.description.as_str());
    r
}

/// The lines that list the packs and the directory where local packs go.
pub fn print_packs(packs: &Vec<TipPack>, directory: &str) -> (r: Vec<String>)
    ensures
        texts(r@) == pack_list_lines(packs@, directory@),
{
    let mut r: Vec<String> = Vec::new();
    r.push(String::from_str("Available yoo tip packs:"));
    r.push(String::new());
    let mut i: usize = 0;
    while i < packs.len()
        invariant
            i <= packs@.len(),
            texts(r@) == seq!["Available yoo tip packs:"@, Seq::<char>::empty()] + packs@.take(
                i as int,
            ).map_values(|p: TipPack| pack_line(p)),
        decreases packs.len() - i,
    {
        let line = pack_line_text(&packs[i]);
        let ghost before = r@;
        r.push(line);
        assert(texts(r@) =~= texts(before).push(pack_line(packs@[i as int])));
        assert(packs@.take(i + 1).map_values(|p: TipPack| pack_line(p)) =~= packs@.take(
            i as int,
        ).map_values(|p: TipPack| pack_line(p)).push(pack_line(packs@[i as int])));
        assert(texts(r@) =~= seq!["Available yoo tip packs:"@, Seq::<char>::empty()] + packs@.take(
            i + 1,
        ).map_values(|p: TipPack| pack_line(p)));
        i += 1;
    }
    assert(packs@.take(i as int) =~= packs@);
    r.push(String::new());
    r.push(String::from_str("Add community packs as YAML files in:"));
    r.push(String::from_str(directory));
    assert(texts(r@) =~= pack_list_lines(packs@, directory@));
    r
}

} // verus!
