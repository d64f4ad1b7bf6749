//! The wallpaper of the desktop while it is watched from afar.

use crate::text::{append_str, chars_of, decimal, decimal_text, string_of};
use vstd::prelude::*;

verus! {

/// The key below the users under which the wallpapers last shown are
/// recorded: for the system, below the user of the session; for anybody else,
/// below the current user.
pub open spec fn wallpapers_key(session: Option<u32>) -> Seq<char> {
    (match session {
        Some(sid) => decimal(sid as nat) + "\\"@,
        None => Seq::<char>::empty(),
    }) + "Software\\Microsoft\\Windows\\CurrentVersion\\Explorer\\Wallpapers"@
}

/// Names the key the wallpaper last shown is read from. `is_root` tells
/// whether the program runs as the system, `session` the session of the
/// calling process. For the system that session has to be known.
pub fn get_recent_wallpaper(is_root: bool, session: Option<u32>) -> (r: Option<String>)
    ensures
        r is Some <==> !is_root || session is Some,
        r matches Some(key) ==> key@ == wallpapers_key(
            if is_root {
                session
            } else {
                None
            },
        ),
{
    let mut key: Vec<char> = Vec::new();
    if is_root {
        match session {
            Some(sid) => {
                crate::text::append(&mut key, &decimal_text(sid));
                append_str(&mut key, "\\");
            },
            None => {
                return None;
            },
        }
    }
    append_str(&mut key, "Software\\Microsoft\\Windows\\CurrentVersion\\Explorer\\Wallpapers");
    Some(string_of(&key))
}

/// Whether there is a wallpaper to take away: one is set, and its path is
/// not empty.
pub fn need_remove(wallpaper: Option<&str>) -> (r: bool)
    ensures
        r == (wallpaper matches Some(path) && path@.len() != 0),
{
    match wallpaper {
        Some(path) => path.unicode_len() != 0,
        None => false,
    }
}

/// Whether the wallpaper can be taken away and put back: the wallpaper can
/// be read, or one that was shown lately is recorded.
pub fn support(readable: bool, recent: Option<&str>) -> (r: bool)
    ensures
        r == (readable || (recent matches Some(path) && path@.len() != 0)),
{
    readable || match recent {
        Some(path) => path.unicode_len() != 0,
        None => false,
    }
}

/// The wallpaper that is put back: the one that was shown lately, or
/// failing that the one that is set. Nothing is taken away where no
/// wallpaper is set, and nothing where neither can be read.
pub fn wallpaper_to_restore(current: Option<&str>, recent: Option<String>) -> (r: Option<String>)
    ensures
        r is Some <==> (current matches Some(path) && path@.len() != 0),
        r matches Some(old) ==> old@ == (match recent {
            Some(path) => path@,
            None => current.unwrap()@,
        }),
{
    match current {
        Some(path) => {
            if path.unicode_len() == 0 {
                return None;
            }
            match recent {
                Some(old) => Some(old),
                None => Some(string_of(&chars_of(path))),
            }
        },
        None => None,
    }
}

} // verus!
