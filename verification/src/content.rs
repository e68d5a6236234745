//! Greetings and reminders, one picked from a list by an index that the
//! caller's clock and process id scramble.

use vstd::prelude::*;

verus! {

/// The index that the clock (`now_nanos`), the process id and a per-list salt
/// choose in a list of `length` entries.
pub open spec fn pick(length: usize, salt: u64, now_nanos: u64, pid: u32) -> usize {
    (((now_nanos ^ ((pid as u64) << 16u64)) ^ salt) as usize) % length
}

/// Chooses an index below `length` from the clock reading and the process id.
pub fn random_index(length: usize, salt: u64, now_nanos: u64, pid: u32) -> (i: usize)
    requires
        length > 0,
    ensures
        i == pick(length, salt, now_nanos, pid),
        i < length,
{
    let entropy = now_nanos ^ ((pid as u64) << 16u64) ^ salt;
    (entropy as usize) % length
}

/// The text of greeting `i` before the name.
pub open spec fn greeting_head(i: int) -> Seq<char> {
    if i == 0 {
        "YOOOOO, "@
    } else if i == 1 {
        "What are we shipping today, "@
    } else if i == 2 {
        "Terminal open. Brain online. Let's go, "@
    } else if i == 3 {
        "Welcome back, "@
    } else {
        "Time to build, "@
    }
}

/// The text of greeting `i` after the name.
pub open spec fn greeting_tail(i: int) -> Seq<char> {
    if i == 0 {
        "! 🔥"@
    } else if i == 1 {
        "? 🚀"@
    } else if i == 2 {
        ". ⚡"@
    } else if i == 3 {
        ". Make something awesome. 🦀"@
    } else {
        ". No excuses. 💻"@
    }
}

/// Hydration reminder `i`.
pub open spec fn reminder(i: int) -> Seq<char> {
    if i == 0 {
        "Drink some water before the bug drinks your sanity."@
    } else if i == 1 {
        "Hydration check: take a sip."@
    } else {
        "Water first. Then infinite debugging power."@
    }
}

fn greeting_parts(i: usize) -> (r: (&'static str, &'static str))
    ensures
        r.0@ == greeting_head(i as int),
        r.1@ == greeting_tail(i as int),
{
    if i == 0 {
        ("YOOOOO, ", "! 🔥")
    } else if i == 1 {
        ("What are we shipping today, ", "? 🚀")
    } else if i == 2 {
        ("Terminal open. Brain online. Let's go, ", ". ⚡")
    } else if i == 3 {
        ("Welcome back, ", ". Make something awesome. 🦀")
    } else {
        ("Time to build, ", ". No excuses. 💻")
    }
}

/// One of five greetings addressed to `name`. Each greeting holds the
/// placeholder `{name}` once, so the greeting is its text before the
/// placeholder, the name, and its text after it.
pub fn greeting(name: &str, now_nanos: u64, pid: u32) -> (r: String)
    ensures
        ({
            let i = pick(5, 0xA3, now_nanos, pid) as int;
            r@ == greeting_head(i) + name@ + greeting_tail(i)
        }),
        r@.subrange(
            greeting_head(pick(5, 0xA3, now_nanos, pid) as int).len() as int,
            (greeting_head(pick(5, 0xA3, now_nanos, pid) as int).len() + name@.len()) as int,
        ) == name@,
{
    let i = random_index(5, 0xA3, now_nanos, pid);
    let (head, tail) = greeting_parts(i);
    let mut r = String::from_str(head);
    r.append(name);
    r.append(tail);
    assert((head@ + name@ + tail@).subrange(head@.len() as int, (head@.len() + name@.len()) as int) =~= name@);
    r
}

/// One of three hydration reminders; never empty.
pub fn hydration_reminder(now_nanos: u64, pid: u32) -> (r: String)
    ensures
        r@ == reminder(pick(3, 0xB7, now_nanos, pid) as int),
        r@.len() > 0,
{
    let i = random_index(3, 0xB7, now_nanos, pid);
    let text = if i == 0 {
        "Drink some water before the bug drinks your sanity."
    } else if i == 1 {
        "Hydration check: take a sip."
    } else {
        "Water first. Then infinite debugging power."
    };
    proof {
        reveal_strlit("Drink some water before the bug drinks your sanity.");
        reveal_strlit("Hydration check: take a sip.");
        reveal_strlit("Water first. Then infinite debugging power.");
    }
    String::from_str(text)
}

} // verus!
