//! Command scripts: what is written to the file that is then run.

use crate::text::{
    append_str, chars_of, contains, contains_text, is_text, replace, replaced, string_of,
};
use crate::wide::{encode_utf16, utf16_of};
use vstd::prelude::*;
use vstd::string::StringSliceAdditionalSpecFns;

verus! {

/// The bytes of UTF-16 units, the low byte of each unit first.
pub open spec fn little_endian(units: Seq<u16>) -> Seq<u8>
    decreases units.len(),
{
    if units.len() == 0 {
        Seq::<u8>::empty()
    } else {
        little_endian(units.drop_last()).push((units.last() % 256) as u8).push(
            (units.last() / 256) as u8,
        )
    }
}

/// Writes units as bytes, the low byte of each unit first.
pub fn to_le(v: &Vec<u16>) -> (r: Vec<u8>)
    ensures
        r@ == little_endian(v@),
{
    let mut r: Vec<u8> = Vec::new();
    let mut i: usize = 0;
    assert(v@.take(0) =~= Seq::<u16>::empty());
    while i < v.len()
        invariant
            i <= v.len(),
            r@ == little_endian(v@.take(i as int)),
        decreases v.len() - i,
    {
        proof {
            assert(v@.take(i + 1).drop_last() =~= v@.take(i as int));
        }
        let u: u16 = v[i];
        r.push((u % 256) as u8);
        r.push((u / 256) as u8);
        i += 1;
    }
    assert(v@.take(v.len() as int) =~= v@);
    r
}

/// Whether a directory name holds a character that keeps a batch file in it
/// from running with raised rights.
pub fn needs_other_folder(dir: &str) -> (r: bool)
    ensures
        r == (contains_text(dir@, "&"@) || contains_text(dir@, "@"@) || contains_text(
            dir@,
            "^"@,
        )),
{
    let d = chars_of(dir);
    contains(&d, &chars_of("&")) || contains(&d, &chars_of("@")) || contains(&d, &chars_of("^"))
}

/// The folder scripts are written to where the temporary directory will not
/// do: the data directory of programs where it exists, else the temporary
/// directory of the system where that exists, on the system drive or on `C:`.
pub fn user_accessible_folder(
    system_drive: Option<&str>,
    program_data_exists: bool,
    windows_temp_exists: bool,
) -> (r: Option<String>)
    ensures
        r is Some <==> program_data_exists || windows_temp_exists,
        r matches Some(dir) ==> dir@ == (match system_drive {
            Some(disk) => disk@,
            None => "C:"@,
        }) + (if program_data_exists {
            "\\ProgramData"@
        } else {
            "\\Windows\\Temp"@
        }),
{
    let mut dir = match system_drive {
        Some(disk) => chars_of(disk),
        None => chars_of("C:"),
    };
    if program_data_exists {
        append_str(&mut dir, "\\ProgramData");
        Some(string_of(&dir))
    } else if windows_temp_exists {
        append_str(&mut dir, "\\Windows\\Temp");
        Some(string_of(&dir))
    } else {
        None
    }
}

/// The name of the file a script is written to.
pub fn script_name(app_name: &str, tip: &str, ext: &str) -> (r: String)
    ensures
        r@ == app_name@ + "_"@ + tip@ + "."@ + ext@,
{
    let mut name = chars_of(app_name);
    append_str(&mut name, "_");
    append_str(&mut name, tip);
    append_str(&mut name, ".");
    append_str(&mut name, ext);
    string_of(&name)
}

/// The name of the file that is there as long as a script has not run to its end.
pub fn get_undone_file(file_name: &str) -> (r: String)
    ensures
        r@ == file_name@ + ".undone"@,
{
    let mut name = chars_of(file_name);
    append_str(&mut name, ".undone");
    string_of(&name)
}

/// A text with every line ended by a carriage return and a line feed,
/// however it was ended before.
pub open spec fn with_crlf(text: Seq<char>) -> Seq<char> {
    replaced(replaced(text, "\r\n"@, "\n"@), "\n"@, "\r\n"@)
}

/// The commands of a batch file with the command at their end that removes
/// the marker of a script that has not run to its end.
pub open spec fn with_epilogue(cmds: Seq<char>, undone: Seq<char>) -> Seq<char> {
    "\n"@ + cmds + "\nif exist \""@ + undone + "\" del /f /q \""@ + undone + "\"\n"@
}

/// The text of a script as it is written: a batch file gets the command
/// that removes its marker, and every line ends with a carriage return and a
/// line feed.
pub open spec fn script_text_of(cmds: Seq<char>, ext: Seq<char>, undone: Seq<char>) -> Seq<char> {
    with_crlf(
        if ext == "bat"@ {
            with_epilogue(cmds, undone)
        } else {
            cmds
        },
    )
}

/// Builds the text of a script as it is written. `undone` is the path of the
/// marker of a batch file.
pub fn script_text(cmds: &str, ext: &str, undone: &str) -> (r: String)
    ensures
        r@ == script_text_of(cmds@, ext@, undone@),
{
    let mut text: Vec<char> = Vec::new();
    if is_text(ext, "bat") {
        append_str(&mut text, "\n");
        append_str(&mut text, cmds);
        append_str(&mut text, "\nif exist \"");
        append_str(&mut text, undone);
        append_str(&mut text, "\" del /f /q \"");
        append_str(&mut text, undone);
        append_str(&mut text, "\"\n");
        assert(text@ =~= with_epilogue(cmds@, undone@));
    } else {
        append_str(&mut text, cmds);
        assert(text@ =~= cmds@);
    }
    let crlf = chars_of("\r\n");
    let lf = chars_of("\n");
    let unix = replace(&text, &crlf, &lf);
    string_of(&replace(&unix, &lf, &crlf))
}

/// The bytes of a script: UTF-16 with the low byte first for a script of
/// the scripting host, UTF-8 for any other.
pub fn script_bytes(text: &str, ext: &str) -> (r: Vec<u8>)
    ensures
        r@ == (if ext@ == "vbs"@ {
            little_endian(utf16_of(text@))
        } else {
            text.spec_bytes()
        }),
{
    if is_text(ext, "vbs") {
        to_le(&encode_utf16(text))
    } else {
        text.as_bytes_vec()
    }
}

/// Why a script did not do its work.
#[derive(Clone, Copy, Debug, PartialEq, Eq, Structural)]
pub enum ScriptError {
    /// The script could not be started.
    NotStarted,
    /// The script was started but did not run to its end.
    Undone,
}

/// Tells how a script went: it has to have been started, and the marker of
/// a script that has not run to its end has to be gone.
pub fn run_cmds(started: bool, undone_exists: bool) -> (r: Result<(), ScriptError>)
    ensures
        r == (if !started {
            Err::<(), ScriptError>(ScriptError::NotStarted)
        } else if undone_exists {
            Err::<(), ScriptError>(ScriptError::Undone)
        } else {
            Ok::<(), ScriptError>(())
        }),
{
    if !started {
        Err(ScriptError::NotStarted)
    } else if undone_exists {
        Err(ScriptError::Undone)
    } else {
        Ok(())
    }
}

} // verus!
