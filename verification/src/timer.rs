//! Limits and display of the coding-session timer.

use vstd::prelude::*;

use crate::text::{decimal, push_decimal};

verus! {

/// The shortest session, in minutes.
pub const MIN_MINUTES: u64 = 1;

/// The longest session, in minutes.
pub const MAX_MINUTES: u64 = 480;

/// The message given for a session length outside the limits.
pub open spec fn minutes_range_message() -> Seq<char> {
    "minutes must be between 1 and 480"@
}

/// `n` in decimal, padded with a leading zero to at least two digits.
pub open spec fn two_digits(n: nat) -> Seq<char> {
    if n < 10 {
        seq!['0'].add(decimal(n))
    } else {
        decimal(n)
    }
}

/// Accepts a session length between `MIN_MINUTES` and `MAX_MINUTES`, both included.
pub fn validate_minutes(minutes: u64) -> (r: Result<(), String>)
    ensures
        r is Ok <==> MIN_MINUTES <= minutes <= MAX_MINUTES,
        r matches Err(message) ==> message@ == minutes_range_message(),
{
    if !(MIN_MINUTES <= minutes && minutes <= MAX_MINUTES) {
        return Err(String::from_str("minutes must be between 1 and 480"));
    }
    Ok(())
}

/// Appends `n` padded to two digits.
pub fn push_two_digits(s: &mut String, n: u64)
    ensures
        final(s)@ == old(s)@ + two_digits(n as nat),
{
    if n < 10 {
        crate::text::push_char(s, '0');
    }
    push_decimal(s, n);
    proof {
        if n < 10 {
            assert(old(s)@.push('0') + decimal(n as nat) == old(s)@ + (seq!['0'] + decimal(n as nat)));
        }
    }
}

/// `total_seconds` as `MM:SS`, minutes not wrapped into hours.
pub fn format_duration(total_seconds: u64) -> (r: String)
    ensures
        r@ == two_digits((total_seconds / 60) as nat) + seq![':'] + two_digits(
            (total_seconds % 60) as nat,
        ),
{
    let mut r = String::new();
    push_two_digits(&mut r, total_seconds / 60);
    crate::text::push_char(&mut r, ':');
    push_two_digits(&mut r, total_seconds % 60);
    r
}


/// The session length where none is asked, in minutes.
pub const DEFAULT_MINUTES: u64 = 25;

/// The length of the session to run: the one asked, else the default; refused
/// outside the limits.
pub fn session_minutes(requested: Option<u64>) -> (r: Result<u64, String>)
    ensures
        ({
            let m = match requested {
                Some(v) => v,
                None => DEFAULT_MINUTES,
            };
            if MIN_MINUTES <= m <= MAX_MINUTES {
                r == Ok::<u64, String>(m)
            } else {
                r matches Err(message) && message@ == minutes_range_message()
            }
        }),
{
    let minutes = match requested {
        Some(v) => v,
        None => DEFAULT_MINUTES,
    };
    match validate_minutes(minutes) {
        Ok(()) => Ok(minutes),
        Err(message) => Err(message),
    }
}

/// The line that announces a session of `minutes` minutes.
pub fn start_line(minutes: u64) -> (r: String)
    ensures
        r@ == "🍅 Local coding session started for "@ + decimal(minutes as nat)
            + " minute(s). Press Ctrl+C to stop it."@,
{
    let mut r = String::from_str("🍅 Local coding session started for ");
    push_decimal(&mut r, minutes);
    r.append(" minute(s). Press Ctrl+C to stop it.");
    r
}

/// What the timer shows after `elapsed` of `total_seconds` seconds: the time
/// left, written over the current line, or nothing once the session is over.
pub fn remaining_line(total_seconds: u64, elapsed: u64) -> (r: Option<String>)
    ensures
        elapsed >= total_seconds ==> r is None,
        elapsed < total_seconds ==> (r matches Some(line) && line@ == "\r⏳ Session remaining: "@
            + two_digits(((total_seconds - elapsed) as nat) / 60) + seq![':'] + two_digits(
            ((total_seconds - elapsed) as nat) % 60,
        ) + " "@),
{
    if elapsed >= total_seconds {
        return None;
    }
    let mut r = String::from_str("\r⏳ Session remaining: ");
    let left = format_duration(total_seconds - elapsed);
    r.append(left.as_str());
    r.append(" ");
    Some(r)
}

/// The lines that close a session; the encouragement only where asked.
pub fn finish_lines(show_complete_message: bool) -> (r: Vec<String>)
    ensures
        r@.len() == if show_complete_message {
            2int
        } else {
            1int
        },
        r@[0]@ == "\r✅ Session complete.                    "@,
        show_complete_message ==> r@[1]@
            == "Stretch, drink water, and commit something you are proud of. 🚀"@,
{
    let mut r: Vec<String> = Vec::new();
    r.push(String::from_str("\r✅ Session complete.                    "));
    if show_complete_message {
        r.push(String::from_str("Stretch, drink water, and commit something you are proud of. 🚀"));
    }
    r
}

} // verus!
