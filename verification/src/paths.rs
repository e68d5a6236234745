//! File names, stems and extensions of paths held as text.

use vstd::prelude::*;

use crate::text::{chars_of, same_chars, string_of, sub_chars};

verus! {

/// Whether `c` separates path components: `/`, and on Windows also `\`.
pub open spec fn is_sep(c: char, windows: bool) -> bool {
    c == '/' || (windows && c == '\\')
}

/// `p` without trailing separators.
pub open spec fn strip_seps(p: Seq<char>, windows: bool) -> Seq<char>
    decreases p.len(),
{
    if p.len() > 0 && is_sep(p.last(), windows) {
        strip_seps(p.drop_last(), windows)
    } else {
        p
    }
}

/// The part of `p` after its last separator.
pub open spec fn tail_segment(p: Seq<char>, windows: bool) -> Seq<char>
    decreases p.len(),
{
    if p.len() == 0 {
        p
    } else if is_sep(p.last(), windows) {
        Seq::empty()
    } else {
        tail_segment(p.drop_last(), windows).push(p.last())
    }
}

/// The last component of `p`, as `Path::file_name` gives it; a path whose last
/// component is empty, `.` or `..` has none.
pub open spec fn file_name(p: Seq<char>, windows: bool) -> Option<Seq<char>> {
    let name = tail_segment(strip_seps(p, windows), windows);
    if name.len() == 0 || name == "."@ || name == ".."@ {
        None
    } else {
        Some(name)
    }
}

/// The index of the last `.` in `s`, where there is one.
pub open spec fn last_dot(s: Seq<char>) -> Option<nat>
    decreases s.len(),
{
    if s.len() == 0 {
        None
    } else if s.last() == '.' {
        Some((s.len() - 1) as nat)
    } else {
        last_dot(s.drop_last())
    }
}

/// The stem of a file name, as `Path::file_stem` gives it: the name without
/// its extension, where it has one.
pub open spec fn stem_of(name: Seq<char>) -> Seq<char> {
    match last_dot(name) {
        Some(k) => if k == 0 {
            name
        } else {
            name.take(k as int)
        },
        None => name,
    }
}

/// The extension of a file name, as `Path::extension` gives it: what follows
/// the last `.`, where that dot is not the first character.
pub open spec fn extension_of(name: Seq<char>) -> Option<Seq<char>> {
    match last_dot(name) {
        Some(k) => if k == 0 || name == ".."@ {
            None
        } else {
            Some(name.skip((k + 1) as int))
        },
        None => None,
    }
}

proof fn lemma_last_dot(s: Seq<char>)
    ensures
        last_dot(s) matches Some(k) ==> k < s.len() && s[k as int] == '.',
    decreases s.len(),
{
    if s.len() > 0 && s.last() != '.' {
        lemma_last_dot(s.drop_last());
    }
}

fn last_dot_exec(v: &Vec<char>) -> (r: Option<usize>)
    ensures
        r is None <==> last_dot(v@) is None,
        r matches Some(k) ==> last_dot(v@) == Some(k as nat) && k < v@.len(),
{
    let mut k: usize = v.len();
    assert(v@.take(k as int) == v@);
    while k > 0 && v[k - 1] != '.'
        invariant
            k <= v@.len(),
            last_dot(v@) == last_dot(v@.take(k as int)),
        decreases k,
    {
        assert(v@.take(k as int).drop_last() == v@.take(k - 1));
        k -= 1;
    }
    if k == 0 {
        None
    } else {
        assert(v@.take(k as int).last() == '.');
        Some(k - 1)
    }
}

/// The last component of the path `p`.
pub fn file_name_of(p: &str, windows: bool) -> (r: Option<Vec<char>>)
    ensures
        match file_name(p@, windows) {
            Some(n) => r matches Some(v) && v@ == n,
            None => r is None,
        },
{
    let v = chars_of(p);
    let mut end = v.len();
    assert(v@.take(end as int) == v@);
    while end > 0 && (v[end - 1] == '/' || (windows && v[end - 1] == '\\'))
        invariant
            end <= v@.len(),
            strip_seps(v@, windows) == strip_seps(v@.take(end as int), windows),
        decreases end,
    {
        assert(v@.take(end as int).drop_last() == v@.take(end - 1));
        end -= 1;
    }
    let ghost s = v@.take(end as int);
    let mut start = end;
    assert(v@.take(end as int) == s);
    assert(s.subrange(start as int, end as int) == Seq::<char>::empty());
    assert(s.take(start as int) == s);
    while start > 0 && !(v[start - 1] == '/' || (windows && v[start - 1] == '\\'))
        invariant
            start <= end <= v@.len(),
            s == v@.take(end as int),
            tail_segment(s, windows) == tail_segment(s.take(start as int), windows) + s.subrange(
                start as int,
                end as int,
            ),
        decreases start,
    {
        let ghost t = s.take(start as int);
        assert(t.drop_last() == s.take(start - 1));
        assert(s.subrange(start - 1, end as int) == seq![t.last()] + s.subrange(start as int, end as int));
        start -= 1;
    }
    proof {
        if start > 0 {
            assert(s.take(start as int).last() == v@[start - 1]);
        }
        assert(tail_segment(s.take(start as int), windows).len() == 0);
    }
    let name = sub_chars(&v, start, end);
    assert(name@ == s.subrange(start as int, end as int));
    if name.len() == 0 || same_chars(&name, &chars_of(".")) || same_chars(&name, &chars_of("..")) {
        None
    } else {
        Some(name)
    }
}

/// The stem of the file name `name`.
pub fn stem(name: &Vec<char>) -> (r: Vec<char>)
    ensures
        r@ == stem_of(name@),
{
    assert(name@.subrange(0, name@.len() as int) == name@);
    proof {
        lemma_last_dot(name@);
    }
    match last_dot_exec(name) {
        Some(k) => if k == 0 {
            sub_chars(name, 0, name.len())
        } else {
            let r = sub_chars(name, 0, k);
            assert(r@ == name@.take(k as int));
            r
        },
        None => sub_chars(name, 0, name.len()),
    }
}

/// The extension of the file name `name`.
pub fn extension(name: &Vec<char>) -> (r: Option<Vec<char>>)
    ensures
        match extension_of(name@) {
            Some(e) => r matches Some(v) && v@ == e,
            None => r is None,
        },
{
    proof {
        lemma_last_dot(name@);
    }
    match last_dot_exec(name) {
        Some(k) => if k == 0 || same_chars(name, &chars_of("..")) {
            None
        } else {
            assert(k < name@.len());
            assert(name@.len() == name.len());
            let r = sub_chars(name, k + 1, name.len());
            assert(r@ == name@.skip(k + 1));
            Some(r)
        },
        None => None,
    }
}

} // verus!
