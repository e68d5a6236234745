//! The choice of the editor that opens a project: the one asked for, the one
//! configured, `$VISUAL`, `$EDITOR`, then the first well-known editor found.

use vstd::prelude::*;

verus! {

/// The editors tried, in order, where none is asked for.
pub open spec fn candidate_list(windows: bool) -> Seq<Seq<char>> {
    if windows {
        seq!["code"@, "cursor"@, "zed"@, "notepad"@]
    } else {
        seq!["code"@, "cursor"@, "zed"@, "nvim"@, "vim"@, "vi"@]
    }
}

/// The editors tried, in order, where none is asked for.
pub fn editor_candidates(windows: bool) -> (r: Vec<&'static str>)
    ensures
        r@.map_values(|s: &str| s@) == candidate_list(windows),
{
    let r = if windows {
        vec!["code", "cursor", "zed", "notepad"]
    } else {
        vec!["code", "cursor", "zed", "nvim", "vim", "vi"]
    };
    assert(r@.map_values(|s: &str| s@) =~= candidate_list(windows));
    r
}

/// The message where no editor is found.
pub open spec fn no_editor_message() -> Seq<char> {
    "no editor found; set $VISUAL or $EDITOR, or use `yoo edit --editor <EDITOR>`"@
}

/// An environment value, where it is set and not empty.
pub open spec fn nonempty(v: Option<String>) -> Option<Seq<char>> {
    match v {
        Some(s) => if s@.len() > 0 {
            Some(s@)
        } else {
            None
        },
        None => None,
    }
}

/// The editor named before any search: the one asked for, the configured
/// one where it is not empty, then `$VISUAL` and `$EDITOR` where set and not empty.
pub open spec fn named_editor(
    override_editor: Option<&str>,
    configured_editor: Option<&str>,
    visual: Option<String>,
    editor: Option<String>,
) -> Option<Seq<char>> {
    match override_editor {
        Some(e) => Some(e@),
        None => match configured_editor {
            Some(e) if e@.len() > 0 => Some(e@),
            _ => match nonempty(visual) {
                Some(e) => Some(e),
                None => nonempty(editor),
            },
        },
    }
}

/// `find` may answer `o` when asked for the program `name`.
pub open spec fn found_as<F: Fn(&str) -> Option<String>>(find: F, name: Seq<char>, o: Option<String>) -> bool {
    exists|a: &str| a@ == name && #[trigger] call_ensures(find, (a,), o)
}

/// The program `name` as run: the path `find` gave for it, else the name itself.
pub open spec fn resolved(name: Seq<char>, o: Option<String>) -> Seq<char> {
    match o {
        Some(p) => p@,
        None => name,
    }
}

fn resolve<F: Fn(&str) -> Option<String>>(name: &str, find: &F) -> (r: String)
    requires
        forall|a: &str| #[trigger] call_requires(*find, (a,)),
    ensures
        exists|o: Option<String>| #[trigger] found_as(*find, name@, o) && r@ == resolved(name@, o),
{
    let o = find(name);
    assert(found_as(*find, name@, o));
    match o {
        Some(p) => p,
        None => String::from_str(name),
    }
}

/// The editor to run. `find` looks a program up where programs are found
/// (its path, or nothing where there is none); `visual` and `editor` are the
/// values of `$VISUAL` and `$EDITOR`. A named editor is run by the path found
/// for it, or by its name; where none is named, the first candidate found is run.
pub fn select_editor<F: Fn(&str) -> Option<String>>(
    override_editor: Option<&str>,
    configured_editor: Option<&str>,
    visual: Option<String>,
    editor: Option<String>,
    windows: bool,
    find: F,
) -> (r: Result<String, String>)
    requires
        forall|a: &str| #[trigger] call_requires(find, (a,)),
    ensures
        match named_editor(override_editor, configured_editor, visual, editor) {
            Some(e) => r matches Ok(p) && exists|o: Option<String>| #[trigger]
                found_as(find, e, o) && p@ == resolved(e, o),
            None => match r {
                Ok(p) => exists|k: int, q: String|
                    0 <= k < candidate_list(windows).len() && #[trigger] found_as(
                        find,
                        candidate_list(windows)[k],
                        Some(q),
                    ) && p@ == q@ && forall|j: int|
                        0 <= j < k ==> found_as(find, #[trigger] candidate_list(windows)[j], None),
                Err(m) => m@ == no_editor_message() && forall|j: int|
                    0 <= j < candidate_list(windows).len() ==> found_as(
                        find,
                        #[trigger] candidate_list(windows)[j],
                        None,
                    ),
            },
        },
{
    let named: Option<String> = match override_editor {
        Some(e) => Some(String::from_str(e)),
        None => match configured_editor {
            Some(e) if !e.is_empty() => Some(String::from_str(e)),
            _ => match visual {
                Some(v) if !v.as_str().is_empty() => Some(v),
                _ => match editor {
                    Some(v) if !v.as_str().is_empty() => Some(v),
                    _ => None,
                },
            },
        },
    };
    if let Some(e) = named {
        let p = resolve(e.as_str(), &find);
        let r: Result<String, String> = Ok(p);
        proof {
            let o = choose|o: Option<String>| #[trigger] found_as(find, e@, o) && p@ == resolved(e@, o);
            let n = named_editor(override_editor, configured_editor, visual, editor)->0;
            assert(found_as(find, n, o) && p@ == resolved(n, o));
        }
        return r;
    }
    let candidates = editor_candidates(windows);
    let ghost list = candidate_list(windows);
    let mut i: usize = 0;
    while i < candidates.len()
        invariant
            i <= candidates@.len(),
            candidates@.map_values(|s: &str| s@) == list,
            list == candidate_list(windows),
            forall|a: &str| #[trigger] call_requires(find, (a,)),
            forall|j: int| 0 <= j < i ==> found_as(find, #[trigger] list[j], None),
            named_editor(override_editor, configured_editor, visual, editor) is None,
        decreases candidates.len() - i,
    {
        let c = candidates[i];
        assert(list[i as int] == c@);
        let o = find(c);
        assert(found_as(find, list[i as int], o));
        match o {
            Some(p) => {
                assert(exists|k: int, q: String|
                    0 <= k < candidate_list(windows).len() && #[trigger] found_as(
                        find,
                        candidate_list(windows)[k],
                        Some(q),
                    ) && p@ == q@ && forall|j: int|
                        0 <= j < k ==> found_as(find, #[trigger] candidate_list(windows)[j], None));
                return Ok(p);
            },
            None => {},
        }
        i += 1;
    }
    Err(String::from_str("no editor found; set $VISUAL or $EDITOR, or use `yoo edit --editor <EDITOR>`"))
}

} // verus!
