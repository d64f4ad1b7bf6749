//! The names of the users of sessions, as the operating system gives them.

use crate::text::{chars_of, is_text, string_of, trim_end_matches, trimmed_end_of};
use crate::wide::{decode_utf16, utf16_decoded};
use vstd::prelude::*;

verus! {

/// The first `n` units of a buffer, or all of it where it holds fewer.
pub open spec fn written(buffer: Seq<u16>, n: u32) -> Seq<u16> {
    if n as int <= buffer.len() {
        buffer.take(n as int)
    } else {
        buffer
    }
}

/// The name that a buffer holds of which `n` units were written: nothing
/// where none was written, `fallback` where what was written is no
/// well-formed UTF-16, and in either other case without the zeros at the end.
pub open spec fn buffer_name(buffer: Seq<u16>, n: u32, fallback: Seq<char>) -> Seq<char> {
    if n == 0 {
        Seq::<char>::empty()
    } else {
        match utf16_decoded(written(buffer, n)) {
            Some(name) => trimmed_end_of(name, '\0'),
            None => trimmed_end_of(fallback, '\0'),
        }
    }
}

fn name_in(buffer: &Vec<u16>, n: u32, fallback: &str) -> (r: String)
    ensures
        r@ == buffer_name(buffer@, n, fallback@),
{
    if n == 0 {
        return String::new();
    }
    let mut units: Vec<u16> = Vec::new();
    let mut i: usize = 0;
    while i < buffer.len() && i < n as usize
        invariant
            i <= buffer.len(),
            i <= n,
            units@ == buffer@.take(i as int),
        decreases buffer.len() - i,
    {
        units.push(buffer[i]);
        assert(buffer@.take(i + 1) =~= buffer@.take(i as int).push(buffer@[i as int]));
        i += 1;
    }
    assert(units@ =~= written(buffer@, n));
    let name = match decode_utf16(&units) {
        Some(name) => name,
        None => chars_of(fallback),
    };
    string_of(&trim_end_matches(&name, '\0'))
}

/// The user of a session, read from the buffer the operating system filled
/// with `n` units. A name that cannot be read is no name.
pub fn get_session_username(buffer: &Vec<u16>, n: u32) -> (r: String)
    ensures
        r@ == buffer_name(buffer@, n, ""@),
{
    name_in(buffer, n, "")
}

/// The user that is taken to be active. The user of the caller's own session
/// goes first, where that session is known, even if it has none. Failing
/// that, a program that does not run as the system answers with its own
/// user, and one that does with the active user the operating system wrote
/// to the buffer, `??` standing for a name that cannot be read.
pub fn get_active_username(
    session_user: Option<String>,
    is_root: bool,
    own: String,
    buffer: &Vec<u16>,
    n: u32,
) -> (r: String)
    ensures
        r@ == match session_user {
            Some(name) => name@,
            None => if !is_root {
                own@
            } else {
                buffer_name(buffer@, n, "??"@)
            },
        },
{
    match session_user {
        Some(name) => name,
        None => {
            if !is_root {
                own
            } else {
                name_in(buffer, n, "??")
            }
        },
    }
}

/// Whether nobody has logged on yet in the caller's session: its user is
/// known and is either none or the system.
pub fn is_prelogin(session_user: Option<&str>) -> (r: bool)
    ensures
        r == match session_user {
            Some(name) => name@.len() == 0 || name@ == "SYSTEM"@,
            None => false,
        },
{
    match session_user {
        Some(name) => name.unicode_len() == 0 || is_text(name, "SYSTEM"),
        None => false,
    }
}

} // verus!
