//! Messages for whoever sits at the machine: what is shown, copied,
//! printed or written to a file.

use crate::text::{append_str, chars_of, ends_with, has_suffix, string_of};
use vstd::prelude::*;

verus! {

/// What becomes of a message.
#[derive(Debug, PartialEq, Eq)]
pub struct MessagePlan {
    /// The text of the dialog; `None` where no dialog is shown.
    pub dialog: Option<String>,
    /// The text that is printed; `None` where nothing is printed.
    pub print: Option<String>,
    /// The file the text is written to and the text; `None` where nothing is written.
    pub write: Option<(String, String)>,
}

/// Whether a message is copied to the clipboard before it is shown: every
/// message is, but one that ends with an exclamation mark and is shown in a
/// dialog.
pub open spec fn is_copied(text: Seq<char>, nodialog: bool) -> bool {
    !has_suffix(text, "!"@) || nodialog
}

/// Tells whether a message is copied to the clipboard.
pub fn wants_copy(text: &str, nodialog: bool) -> (r: bool)
    ensures
        r == is_copied(text@, nodialog),
{
    !ends_with(&chars_of(text), &chars_of("!")) || nodialog
}

/// The text of a message as it is shown: a message that was copied and is
/// shown in a dialog says so.
pub open spec fn shown_text(text: Seq<char>, nodialog: bool, copied: bool) -> Seq<char> {
    if copied && !nodialog {
        text + "\n\nThe text above was copied to the clipboard"@
    } else {
        text
    }
}

/// The file a message is written to: the one that is named, if its name is
/// not empty and no dialogs are shown.
pub open spec fn file_to_write<'a>(nodialog: bool, write_to_file: Option<&'a str>) -> Option<
    Seq<char>,
> {
    match write_to_file {
        Some(path) => if nodialog && path@.len() != 0 {
            Some(path@)
        } else {
            None
        },
        None => None,
    }
}

/// Decides what becomes of a message. `copied` tells whether the message
/// went to the clipboard. Without dialogs the message is printed if that is
/// asked for and written to the file that is named, if one is; with dialogs
/// it is shown.
pub fn message_box(
    text: &str,
    nodialog: bool,
    copied: bool,
    print_out: bool,
    write_to_file: Option<&str>,
) -> (r: MessagePlan)
    ensures
        r.dialog is Some <==> !nodialog,
        r.dialog matches Some(shown) ==> shown@ == shown_text(text@, nodialog, copied),
        r.print is Some <==> nodialog && print_out,
        r.print matches Some(printed) ==> printed@ == text@,
        match r.write {
            Some(written) => file_to_write(nodialog, write_to_file) == Some(written.0@)
                && written.1@ == text@,
            None => file_to_write(nodialog, write_to_file) is None,
        },
{
    let mut shown = chars_of(text);
    if nodialog {
        let print = if print_out {
            Some(string_of(&shown))
        } else {
            None
        };
        let write = match write_to_file {
            Some(path) => {
                if path.unicode_len() != 0 {
                    Some((string_of(&chars_of(path)), string_of(&shown)))
                } else {
                    None
                }
            },
            None => None,
        };
        return MessagePlan { dialog: None, print, write };
    }
    if copied {
        append_str(&mut shown, "\n\nThe text above was copied to the clipboard");
    }
    MessagePlan { dialog: Some(string_of(&shown)), print: None, write: None }
}

} // verus!
