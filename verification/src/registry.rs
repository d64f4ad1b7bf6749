//! What the program keeps in the registry: where it is installed, and the
//! options it was installed with.

use crate::text::{
    append, append_str, chars_of, is_text, replace, replaced, string_of, trim_end_matches,
    trimmed_end_of,
};
use vstd::prelude::*;

verus! {

/// The name under which an older installer registered the program.
pub const IS1: &'static str = "{54E86BC2-6C85-41F3-A9EB-1A94AC9B1F93}_is1";

/// The option that tells whether desktop shortcuts were made.
pub const REG_NAME_INSTALL_DESKTOPSHORTCUTS: &'static str = "DESKTOPSHORTCUTS";

/// The option that tells whether start menu shortcuts were made.
pub const REG_NAME_INSTALL_STARTMENUSHORTCUTS: &'static str = "STARTMENUSHORTCUTS";

/// The option that tells whether the remote printer was installed.
pub const REG_NAME_INSTALL_PRINTER: &'static str = "PRINTER";

/// The key under which an installed program is registered for removal.
pub open spec fn uninstall_key(name: Seq<char>) -> Seq<char> {
    "HKEY_LOCAL_MACHINE\\Software\\Microsoft\\Windows\\CurrentVersion\\Uninstall\\"@ + name
}

/// The key of a program, in the view of 64-bit programs or, with `wow`, in
/// the view of 32-bit programs: there every `Microsoft` in the key goes under
/// `Wow6432Node`.
pub open spec fn subkey_of(name: Seq<char>, wow: bool) -> Seq<char> {
    if wow {
        replaced(uninstall_key(name), "Microsoft"@, "Wow6432Node\\Microsoft"@)
    } else {
        uninstall_key(name)
    }
}

/// The key under which the program named `name` is registered for removal.
pub fn get_subkey(name: &str, wow: bool) -> (r: String)
    ensures
        r@ == subkey_of(name@, wow),
{
    let mut key = chars_of(
        "HKEY_LOCAL_MACHINE\\Software\\Microsoft\\Windows\\CurrentVersion\\Uninstall\\",
    );
    append_str(&mut key, name);
    if wow {
        let pat = chars_of("Microsoft");
        let with = chars_of("Wow6432Node\\Microsoft");
        string_of(&replace(&key, &pat, &with))
    } else {
        string_of(&key)
    }
}

/// The key the installation is read from: the first of the older
/// installer's key, that key in the 32-bit view, and the program's own key in
/// the 32-bit view under which a location is recorded; the program's own key
/// where none is.
pub fn get_valid_subkey(
    app_name: &str,
    is1_location: &str,
    is1_wow_location: &str,
    app_wow_location: &str,
) -> (r: String)
    ensures
        r@ == (if is1_location@.len() != 0 {
            subkey_of(IS1@, false)
        } else if is1_wow_location@.len() != 0 {
            subkey_of(IS1@, true)
        } else if app_wow_location@.len() != 0 {
            subkey_of(app_name@, true)
        } else {
            subkey_of(app_name@, false)
        }),
{
    if is1_location.unicode_len() != 0 {
        get_subkey(IS1, false)
    } else if is1_wow_location.unicode_len() != 0 {
        get_subkey(IS1, true)
    } else if app_wow_location.unicode_len() != 0 {
        get_subkey(app_name, true)
    } else {
        get_subkey(app_name, false)
    }
}

/// The directory programs are installed to where none is configured.
pub open spec fn default_install_path(program_files: Option<Seq<char>>, app_name: Seq<char>) -> Seq<
    char,
> {
    (match program_files {
        Some(dir) => dir,
        None => "C:\\Program Files"@,
    }) + "\\"@ + app_name
}

/// The directory the program is installed to by default. `program_files` is
/// the directory the environment names, where it names one that exists.
pub fn get_default_install_path(program_files: Option<&str>, app_name: &str) -> (r: String)
    ensures
        r@ == default_install_path(
            match program_files {
                Some(dir) => Some(dir@),
                None => None,
            },
            app_name@,
        ),
{
    let mut path = match program_files {
        Some(dir) => chars_of(dir),
        None => chars_of("C:\\Program Files"),
    };
    append_str(&mut path, "\\");
    append_str(&mut path, app_name);
    string_of(&path)
}

/// Where the program is installed.
#[derive(Debug, PartialEq, Eq)]
pub struct InstallInfo {
    /// The registry key of the installation.
    pub subkey: String,
    /// The directory of the installation, without a backslash at its end.
    pub path: String,
    /// The directory of the start menu entries.
    pub start_menu: String,
    /// The executable.
    pub exe: String,
}

/// The directory of an installation: the recorded location, or the default
/// where none is recorded, without the backslashes at its end.
pub open spec fn install_dir(location: Seq<char>, default_path: Seq<char>) -> Seq<char> {
    trimmed_end_of(
        if location.len() == 0 {
            default_path
        } else {
            location
        },
        '\\',
    )
}

/// Puts together where the program is installed, from the location recorded
/// under `subkey` and the default directory.
pub fn get_install_info_with_subkey(
    subkey: String,
    location: &str,
    default_path: &str,
    app_name: &str,
) -> (r: InstallInfo)
    ensures
        r.subkey@ == subkey@,
        r.path@ == install_dir(location@, default_path@),
        r.start_menu@ == "%ProgramData%\\Microsoft\\Windows\\Start Menu\\Programs\\"@ + app_name@,
        r.exe@ == install_dir(location@, default_path@) + "\\"@ + app_name@ + ".exe"@,
{
    let raw = if location.unicode_len() == 0 {
        chars_of(default_path)
    } else {
        chars_of(location)
    };
    let path = trim_end_matches(&raw, '\\');
    let mut start_menu = chars_of("%ProgramData%\\Microsoft\\Windows\\Start Menu\\Programs\\");
    append_str(&mut start_menu, app_name);
    let mut exe: Vec<char> = Vec::new();
    append(&mut exe, &path);
    append_str(&mut exe, "\\");
    append_str(&mut exe, app_name);
    append_str(&mut exe, ".exe");
    assert(exe@ =~= path@ + "\\"@ + app_name@ + ".exe"@);
    InstallInfo {
        subkey,
        path: string_of(&path),
        start_menu: string_of(&start_menu),
        exe: string_of(&exe),
    }
}

/// Whether sessions of remote desktop are shared: they are unless the
/// recorded value is `false`.
pub fn is_share_rdp(recorded: &str) -> (r: bool)
    ensures
        r == (recorded@ != "false"@),
{
    !is_text(recorded, "false")
}

/// The command that records whether sessions of remote desktop are shared.
pub open spec fn share_rdp_command(subkey: Seq<char>, enable: bool) -> Seq<char> {
    "reg add "@ + subkey + " /f /v share_rdp /t REG_SZ /d \""@ + (if enable {
        "true"@
    } else {
        "false"@
    }) + "\""@
}

/// Builds the command that records whether sessions of remote desktop are shared.
pub fn set_share_rdp(subkey: &str, enable: bool) -> (r: String)
    ensures
        r@ == share_rdp_command(subkey@, enable),
{
    let mut cmd = chars_of("reg add ");
    append_str(&mut cmd, subkey);
    append_str(&mut cmd, " /f /v share_rdp /t REG_SZ /d \"");
    if enable {
        append_str(&mut cmd, "true");
    } else {
        append_str(&mut cmd, "false");
    }
    append_str(&mut cmd, "\"");
    string_of(&cmd)
}

/// The kinds of values the registry holds.
#[derive(Clone, Copy, Debug, PartialEq, Eq, Structural)]
#[allow(non_camel_case_types)]
pub enum RegType {
    REG_NONE,
    REG_SZ,
    REG_EXPAND_SZ,
    REG_BINARY,
    REG_DWORD,
    REG_DWORD_BIG_ENDIAN,
    REG_LINK,
    REG_MULTI_SZ,
    REG_RESOURCE_LIST,
    REG_FULL_RESOURCE_DESCRIPTOR,
    REG_RESOURCE_REQUIREMENTS_LIST,
    REG_QWORD,
}

/// The number of a kind of value.
pub open spec fn reg_type_number(kind: RegType) -> int {
    match kind {
        RegType::REG_NONE => 0,
        RegType::REG_SZ => 1,
        RegType::REG_EXPAND_SZ => 2,
        RegType::REG_BINARY => 3,
        RegType::REG_DWORD => 4,
        RegType::REG_DWORD_BIG_ENDIAN => 5,
        RegType::REG_LINK => 6,
        RegType::REG_MULTI_SZ => 7,
        RegType::REG_RESOURCE_LIST => 8,
        RegType::REG_FULL_RESOURCE_DESCRIPTOR => 9,
        RegType::REG_RESOURCE_REQUIREMENTS_LIST => 10,
        RegType::REG_QWORD => 11,
    }
}

/// The number of a kind of value.
pub fn reg_type_to_isize(kind: RegType) -> (r: isize)
    ensures
        r == reg_type_number(kind),
{
    match kind {
        RegType::REG_NONE => 0,
        RegType::REG_SZ => 1,
        RegType::REG_EXPAND_SZ => 2,
        RegType::REG_BINARY => 3,
        RegType::REG_DWORD => 4,
        RegType::REG_DWORD_BIG_ENDIAN => 5,
        RegType::REG_LINK => 6,
        RegType::REG_MULTI_SZ => 7,
        RegType::REG_RESOURCE_LIST => 8,
        RegType::REG_FULL_RESOURCE_DESCRIPTOR => 9,
        RegType::REG_RESOURCE_REQUIREMENTS_LIST => 10,
        RegType::REG_QWORD => 11,
    }
}

/// The kind of value a number stands for; a number that stands for none is
/// taken as `REG_NONE`.
pub open spec fn reg_type_of(i: isize) -> RegType {
    if i == 1 {
        RegType::REG_SZ
    } else if i == 2 {
        RegType::REG_EXPAND_SZ
    } else if i == 3 {
        RegType::REG_BINARY
    } else if i == 4 {
        RegType::REG_DWORD
    } else if i == 5 {
        RegType::REG_DWORD_BIG_ENDIAN
    } else if i == 6 {
        RegType::REG_LINK
    } else if i == 7 {
        RegType::REG_MULTI_SZ
    } else if i == 8 {
        RegType::REG_RESOURCE_LIST
    } else if i == 9 {
        RegType::REG_FULL_RESOURCE_DESCRIPTOR
    } else if i == 10 {
        RegType::REG_RESOURCE_REQUIREMENTS_LIST
    } else if i == 11 {
        RegType::REG_QWORD
    } else {
        RegType::REG_NONE
    }
}

/// The kind of value a number stands for; a number that stands for none
/// is taken as `REG_NONE`.
pub fn isize_to_reg_type(i: isize) -> (r: RegType)
    ensures
        r == reg_type_of(i),
{
    match i {
        0 => RegType::REG_NONE,
        1 => RegType::REG_SZ,
        2 => RegType::REG_EXPAND_SZ,
        3 => RegType::REG_BINARY,
        4 => RegType::REG_DWORD,
        5 => RegType::REG_DWORD_BIG_ENDIAN,
        6 => RegType::REG_LINK,
        7 => RegType::REG_MULTI_SZ,
        8 => RegType::REG_RESOURCE_LIST,
        9 => RegType::REG_FULL_RESOURCE_DESCRIPTOR,
        10 => RegType::REG_RESOURCE_REQUIREMENTS_LIST,
        11 => RegType::REG_QWORD,
        _ => RegType::REG_NONE,
    }
}

/// Every kind of value is the kind its number stands for.
pub proof fn reg_types_round_trip(kind: RegType)
    ensures
        0 <= reg_type_number(kind) <= 11,
        reg_type_of(reg_type_number(kind) as isize) == kind,
{
}

} // verus!
