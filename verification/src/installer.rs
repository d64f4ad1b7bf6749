//! Installing, updating and removing the program: the scripts that do it.
//!
//! Every script is a text with places for what differs from one machine to
//! the next. The functions here fill the places; writing the text to a file
//! and running it is left to the caller.

use crate::registry::{
    REG_NAME_INSTALL_DESKTOPSHORTCUTS, REG_NAME_INSTALL_PRINTER,
    REG_NAME_INSTALL_STARTMENUSHORTCUTS,
};
use crate::text::{
    append_str, chars_of, concat, concat_all, contains, contains_text, decimal, decimal_text,
    decimal_text_u64, lowercase, replace, replaced, slices, split, split_on, string_of, texts,
    to_lowercase, trim_end_matches, trimmed_end_of,
};
use vstd::prelude::*;

verus! {

/// The command that copies the directory of the running program to the
/// directory of the installation.
pub open spec fn xcopy_line_pieces(src_parent: Seq<char>, path: Seq<char>) -> Seq<Seq<char>> {
    seq![
        "XCOPY \""@,
        src_parent,
        "\" \""@,
        path,
        "\" /Y /E /H /C /I /K /R /Z"@,
    ]
}

/// The command that copies the directory of the running program to the
/// directory of the installation.
pub open spec fn xcopy_line_text(src_parent: Seq<char>, path: Seq<char>) -> Seq<char> {
    concat_all(xcopy_line_pieces(src_parent, path))
}

/// The command that copies the directory of the running program to the
/// directory of the installation.
pub fn xcopy_line(src_parent: &str, path: &str) -> (r: String)
    ensures
        r@ == xcopy_line_text(src_parent@, path@),
{
    let pieces: Vec<&str> = vec![
        "XCOPY \"",
        src_parent,
        "\" \"",
        path,
        "\" /Y /E /H /C /I /K /R /Z",
    ];
    assert(slices(pieces@) =~= xcopy_line_pieces(src_parent@, path@));
    concat(&pieces)
}

/// The commands that copy the program and, beside it, the broker of the
/// system under its own name.
pub open spec fn copy_exe_lines_pieces(main_exe: Seq<char>, origin_exe: Seq<char>, path: Seq<char>, broker_exe: Seq<char>) -> Seq<Seq<char>> {
    seq![
        "\n        "@,
        main_exe,
        "\n        copy /Y \""@,
        origin_exe,
        "\" \""@,
        path,
        "\\"@,
        broker_exe,
        "\"\n        "@,
    ]
}

/// The commands that copy the program and, beside it, the broker of the
/// system under its own name.
pub open spec fn copy_exe_lines_text(main_exe: Seq<char>, origin_exe: Seq<char>, path: Seq<char>, broker_exe: Seq<char>) -> Seq<char> {
    concat_all(copy_exe_lines_pieces(main_exe, origin_exe, path, broker_exe))
}

/// The commands that copy the program and, beside it, the broker of the
/// system under its own name.
pub fn copy_exe_lines(main_exe: &str, origin_exe: &str, path: &str, broker_exe: &str) -> (r: String)
    ensures
        r@ == copy_exe_lines_text(main_exe@, origin_exe@, path@, broker_exe@),
{
    let pieces: Vec<&str> = vec![
        "\n        ",
        main_exe,
        "\n        copy /Y \"",
        origin_exe,
        "\" \"",
        path,
        "\\",
        broker_exe,
        "\"\n        ",
    ];
    assert(slices(pieces@) =~= copy_exe_lines_pieces(main_exe@, origin_exe@, path@, broker_exe@));
    concat(&pieces)
}

/// The command that records an option of the installation.
pub open spec fn reg_option_line_pieces(ext: Seq<char>, name: Seq<char>, value: Seq<char>) -> Seq<Seq<char>> {
    seq![
        "reg add HKEY_CLASSES_ROOT\\."@,
        ext,
        " /f /v "@,
        name,
        " /t REG_SZ /d \""@,
        value,
        "\""@,
    ]
}

/// The command that records an option of the installation.
pub open spec fn reg_option_line_text(ext: Seq<char>, name: Seq<char>, value: Seq<char>) -> Seq<char> {
    concat_all(reg_option_line_pieces(ext, name, value))
}

/// The command that records an option of the installation.
pub fn reg_option_line(ext: &str, name: &str, value: &str) -> (r: String)
    ensures
        r@ == reg_option_line_text(ext@, name@, value@),
{
    let pieces: Vec<&str> = vec![
        "reg add HKEY_CLASSES_ROOT\\.",
        ext,
        " /f /v ",
        name,
        " /t REG_SZ /d \"",
        value,
        "\"",
    ];
    assert(slices(pieces@) =~= reg_option_line_pieces(ext@, name@, value@));
    concat(&pieces)
}

/// The commands that register the file type and the protocol of the
/// program, open the firewall for it, set up its service and allow services to
/// send the secure attention sequence.
pub open spec fn after_install_script_pieces(ext: Seq<char>, desktop_shortcuts: Seq<char>, start_menu_shortcuts: Seq<char>, reg_printer: Seq<char>, exe: Seq<char>, app_name: Seq<char>, create_service: Seq<char>) -> Seq<Seq<char>> {
    seq![
        "\n    chcp 65001\n    reg add HKEY_CLASSES_ROOT\\."@,
        ext,
        " /f\n    "@,
        desktop_shortcuts,
        "\n    "@,
        start_menu_shortcuts,
        "\n    "@,
        reg_printer,
        "\n    reg add HKEY_CLASSES_ROOT\\."@,
        ext,
        "\\DefaultIcon /f\n    reg add HKEY_CLASSES_ROOT\\."@,
        ext,
        "\\DefaultIcon /f /ve /t REG_SZ  /d \"\\\""@,
        exe,
        "\\\",0\"\n    reg add HKEY_CLASSES_ROOT\\."@,
        ext,
        "\\shell /f\n    reg add HKEY_CLASSES_ROOT\\."@,
        ext,
        "\\shell\\open /f\n    reg add HKEY_CLASSES_ROOT\\."@,
        ext,
        "\\shell\\open\\command /f\n    reg add HKEY_CLASSES_ROOT\\."@,
        ext,
        "\\shell\\open\\command /f /ve /t REG_SZ /d \"\\\""@,
        exe,
        "\\\" --play \\\"%%1\\\"\"\n    reg add HKEY_CLASSES_ROOT\\"@,
        ext,
        " /f\n    reg add HKEY_CLASSES_ROOT\\"@,
        ext,
        " /f /v \"URL Protocol\" /t REG_SZ /d \"\"\n    reg add HKEY_CLASSES_ROOT\\"@,
        ext,
        "\\shell /f\n    reg add HKEY_CLASSES_ROOT\\"@,
        ext,
        "\\shell\\open /f\n    reg add HKEY_CLASSES_ROOT\\"@,
        ext,
        "\\shell\\open\\command /f\n    reg add HKEY_CLASSES_ROOT\\"@,
        ext,
        "\\shell\\open\\command /f /ve /t REG_SZ /d \"\\\""@,
        exe,
        "\\\" \\\"%%1\\\"\"\n    netsh advfirewall firewall add rule name=\""@,
        app_name,
        " Service\" dir=out action=allow program=\""@,
        exe,
        "\" enable=yes\n    netsh advfirewall firewall add rule name=\""@,
        app_name,
        " Service\" dir=in action=allow program=\""@,
        exe,
        "\" enable=yes\n    "@,
        create_service,
        "\n    reg add HKEY_LOCAL_MACHINE\\Software\\Microsoft\\Windows\\CurrentVersion\\Policies\\System /f /v SoftwareSASGeneration /t REG_DWORD /d 1\n    "@,
    ]
}

/// The commands that register the file type and the protocol of the
/// program, open the firewall for it, set up its service and allow services to
/// send the secure attention sequence.
pub open spec fn after_install_script_text(ext: Seq<char>, desktop_shortcuts: Seq<char>, start_menu_shortcuts: Seq<char>, reg_printer: Seq<char>, exe: Seq<char>, app_name: Seq<char>, create_service: Seq<char>) -> Seq<char> {
    concat_all(after_install_script_pieces(ext, desktop_shortcuts, start_menu_shortcuts, reg_printer, exe, app_name, create_service))
}

/// The commands that register the file type and the protocol of the
/// program, open the firewall for it, set up its service and allow services to
/// send the secure attention sequence.
pub fn after_install_script(ext: &str, desktop_shortcuts: &str, start_menu_shortcuts: &str, reg_printer: &str, exe: &str, app_name: &str, create_service: &str) -> (r: String)
    ensures
        r@ == after_install_script_text(ext@, desktop_shortcuts@, start_menu_shortcuts@, reg_printer@, exe@, app_name@, create_service@),
{
    let pieces: Vec<&str> = vec![
        "\n    chcp 65001\n    reg add HKEY_CLASSES_ROOT\\.",
        ext,
        " /f\n    ",
        desktop_shortcuts,
        "\n    ",
        start_menu_shortcuts,
        "\n    ",
        reg_printer,
        "\n    reg add HKEY_CLASSES_ROOT\\.",
        ext,
        "\\DefaultIcon /f\n    reg add HKEY_CLASSES_ROOT\\.",
        ext,
        "\\DefaultIcon /f /ve /t REG_SZ  /d \"\\\"",
        exe,
        "\\\",0\"\n    reg add HKEY_CLASSES_ROOT\\.",
        ext,
        "\\shell /f\n    reg add HKEY_CLASSES_ROOT\\.",
        ext,
        "\\shell\\open /f\n    reg add HKEY_CLASSES_ROOT\\.",
        ext,
        "\\shell\\open\\command /f\n    reg add HKEY_CLASSES_ROOT\\.",
        ext,
        "\\shell\\open\\command /f /ve /t REG_SZ /d \"\\\"",
        exe,
        "\\\" --play \\\"%%1\\\"\"\n    reg add HKEY_CLASSES_ROOT\\",
        ext,
        " /f\n    reg add HKEY_CLASSES_ROOT\\",
        ext,
        " /f /v \"URL Protocol\" /t REG_SZ /d \"\"\n    reg add HKEY_CLASSES_ROOT\\",
        ext,
        "\\shell /f\n    reg add HKEY_CLASSES_ROOT\\",
        ext,
        "\\shell\\open /f\n    reg add HKEY_CLASSES_ROOT\\",
        ext,
        "\\shell\\open\\command /f\n    reg add HKEY_CLASSES_ROOT\\",
        ext,
        "\\shell\\open\\command /f /ve /t REG_SZ /d \"\\\"",
        exe,
        "\\\" \\\"%%1\\\"\"\n    netsh advfirewall firewall add rule name=\"",
        app_name,
        " Service\" dir=out action=allow program=\"",
        exe,
        "\" enable=yes\n    netsh advfirewall firewall add rule name=\"",
        app_name,
        " Service\" dir=in action=allow program=\"",
        exe,
        "\" enable=yes\n    ",
        create_service,
        "\n    reg add HKEY_LOCAL_MACHINE\\Software\\Microsoft\\Windows\\CurrentVersion\\Policies\\System /f /v SoftwareSASGeneration /t REG_DWORD /d 1\n    ",
    ];
    assert(slices(pieces@) =~= after_install_script_pieces(ext@, desktop_shortcuts@, start_menu_shortcuts@, reg_printer@, exe@, app_name@, create_service@));
    concat(&pieces)
}

/// The script that makes the shortcut to the program.
pub open spec fn shortcut_script_pieces(tmp_path: Seq<char>, app_name: Seq<char>, exe: Seq<char>) -> Seq<Seq<char>> {
    seq![
        "\nSet oWS = WScript.CreateObject(\"WScript.Shell\")\nsLinkFile = \""@,
        tmp_path,
        "\\"@,
        app_name,
        ".lnk\"\n\nSet oLink = oWS.CreateShortcut(sLinkFile)\n    oLink.TargetPath = \""@,
        exe,
        "\"\noLink.Save\n        "@,
    ]
}

/// The script that makes the shortcut to the program.
pub open spec fn shortcut_script_text(tmp_path: Seq<char>, app_name: Seq<char>, exe: Seq<char>) -> Seq<char> {
    concat_all(shortcut_script_pieces(tmp_path, app_name, exe))
}

/// The script that makes the shortcut to the program.
pub fn shortcut_script(tmp_path: &str, app_name: &str, exe: &str) -> (r: String)
    ensures
        r@ == shortcut_script_text(tmp_path@, app_name@, exe@),
{
    let pieces: Vec<&str> = vec![
        "\nSet oWS = WScript.CreateObject(\"WScript.Shell\")\nsLinkFile = \"",
        tmp_path,
        "\\",
        app_name,
        ".lnk\"\n\nSet oLink = oWS.CreateShortcut(sLinkFile)\n    oLink.TargetPath = \"",
        exe,
        "\"\noLink.Save\n        ",
    ];
    assert(slices(pieces@) =~= shortcut_script_pieces(tmp_path@, app_name@, exe@));
    concat(&pieces)
}

/// The script that makes the shortcut that removes the program.
pub open spec fn uninstall_shortcut_script_pieces(tmp_path: Seq<char>, app_name: Seq<char>, exe: Seq<char>) -> Seq<Seq<char>> {
    seq![
        "\nSet oWS = WScript.CreateObject(\"WScript.Shell\")\nsLinkFile = \""@,
        tmp_path,
        "\\Uninstall "@,
        app_name,
        ".lnk\"\nSet oLink = oWS.CreateShortcut(sLinkFile)\n    oLink.TargetPath = \""@,
        exe,
        "\"\n    oLink.Arguments = \"--uninstall\"\n    oLink.IconLocation = \"msiexec.exe\"\noLink.Save\n        "@,
    ]
}

/// The script that makes the shortcut that removes the program.
pub open spec fn uninstall_shortcut_script_text(tmp_path: Seq<char>, app_name: Seq<char>, exe: Seq<char>) -> Seq<char> {
    concat_all(uninstall_shortcut_script_pieces(tmp_path, app_name, exe))
}

/// The script that makes the shortcut that removes the program.
pub fn uninstall_shortcut_script(tmp_path: &str, app_name: &str, exe: &str) -> (r: String)
    ensures
        r@ == uninstall_shortcut_script_text(tmp_path@, app_name@, exe@),
{
    let pieces: Vec<&str> = vec![
        "\nSet oWS = WScript.CreateObject(\"WScript.Shell\")\nsLinkFile = \"",
        tmp_path,
        "\\Uninstall ",
        app_name,
        ".lnk\"\nSet oLink = oWS.CreateShortcut(sLinkFile)\n    oLink.TargetPath = \"",
        exe,
        "\"\n    oLink.Arguments = \"--uninstall\"\n    oLink.IconLocation = \"msiexec.exe\"\noLink.Save\n        ",
    ];
    assert(slices(pieces@) =~= uninstall_shortcut_script_pieces(tmp_path@, app_name@, exe@));
    concat(&pieces)
}

/// The command that puts the shortcut to the program on every desktop.
pub open spec fn desktop_shortcut_line_pieces(tmp_path: Seq<char>, app_name: Seq<char>) -> Seq<Seq<char>> {
    seq![
        "copy /Y \""@,
        tmp_path,
        "\\"@,
        app_name,
        ".lnk\" \"%PUBLIC%\\Desktop\\\""@,
    ]
}

/// The command that puts the shortcut to the program on every desktop.
pub open spec fn desktop_shortcut_line_text(tmp_path: Seq<char>, app_name: Seq<char>) -> Seq<char> {
    concat_all(desktop_shortcut_line_pieces(tmp_path, app_name))
}

/// The command that puts the shortcut to the program on every desktop.
pub fn desktop_shortcut_line(tmp_path: &str, app_name: &str) -> (r: String)
    ensures
        r@ == desktop_shortcut_line_text(tmp_path@, app_name@),
{
    let pieces: Vec<&str> = vec![
        "copy /Y \"",
        tmp_path,
        "\\",
        app_name,
        ".lnk\" \"%PUBLIC%\\Desktop\\\"",
    ];
    assert(slices(pieces@) =~= desktop_shortcut_line_pieces(tmp_path@, app_name@));
    concat(&pieces)
}

/// The commands that put the shortcuts into the start menu, after the
/// commands for the shortcuts made so far.
pub open spec fn start_menu_lines_pieces(shortcuts: Seq<char>, start_menu: Seq<char>, tmp_path: Seq<char>, app_name: Seq<char>) -> Seq<Seq<char>> {
    seq![
        shortcuts,
        "\nmd \""@,
        start_menu,
        "\"\ncopy /Y \""@,
        tmp_path,
        "\\"@,
        app_name,
        ".lnk\" \""@,
        start_menu,
        "\\\"\ncopy /Y \""@,
        tmp_path,
        "\\Uninstall "@,
        app_name,
        ".lnk\" \""@,
        start_menu,
        "\\\"\n     "@,
    ]
}

/// The commands that put the shortcuts into the start menu, after the
/// commands for the shortcuts made so far.
pub open spec fn start_menu_lines_text(shortcuts: Seq<char>, start_menu: Seq<char>, tmp_path: Seq<char>, app_name: Seq<char>) -> Seq<char> {
    concat_all(start_menu_lines_pieces(shortcuts, start_menu, tmp_path, app_name))
}

/// The commands that put the shortcuts into the start menu, after the
/// commands for the shortcuts made so far.
pub fn start_menu_lines(shortcuts: &str, start_menu: &str, tmp_path: &str, app_name: &str) -> (r: String)
    ensures
        r@ == start_menu_lines_text(shortcuts@, start_menu@, tmp_path@, app_name@),
{
    let pieces: Vec<&str> = vec![
        shortcuts,
        "\nmd \"",
        start_menu,
        "\"\ncopy /Y \"",
        tmp_path,
        "\\",
        app_name,
        ".lnk\" \"",
        start_menu,
        "\\\"\ncopy /Y \"",
        tmp_path,
        "\\Uninstall ",
        app_name,
        ".lnk\" \"",
        start_menu,
        "\\\"\n     ",
    ];
    assert(slices(pieces@) =~= start_menu_lines_pieces(shortcuts@, start_menu@, tmp_path@, app_name@));
    concat(&pieces)
}

/// The commands that remove the scripts and shortcuts an installation
/// leaves in the temporary directory.
pub open spec fn cleanup_lines_pieces(mk_shortcut: Seq<char>, uninstall_shortcut: Seq<char>, tray_shortcut: Seq<char>, tmp_path: Seq<char>, app_name: Seq<char>) -> Seq<Seq<char>> {
    seq![
        "\nif exist \""@,
        mk_shortcut,
        "\" del /f /q \""@,
        mk_shortcut,
        "\"\nif exist \""@,
        uninstall_shortcut,
        "\" del /f /q \""@,
        uninstall_shortcut,
        "\"\nif exist \""@,
        tray_shortcut,
        "\" del /f /q \""@,
        tray_shortcut,
        "\"\nif exist \""@,
        tmp_path,
        "\\"@,
        app_name,
        ".lnk\" del /f /q \""@,
        tmp_path,
        "\\"@,
        app_name,
        ".lnk\"\nif exist \""@,
        tmp_path,
        "\\Uninstall "@,
        app_name,
        ".lnk\" del /f /q \""@,
        tmp_path,
        "\\Uninstall "@,
        app_name,
        ".lnk\"\nif exist \""@,
        tmp_path,
        "\\"@,
        app_name,
        " Tray.lnk\" del /f /q \""@,
        tmp_path,
        "\\"@,
        app_name,
        " Tray.lnk\"\n        "@,
    ]
}

/// The commands that remove the scripts and shortcuts an installation
/// leaves in the temporary directory.
pub open spec fn cleanup_lines_text(mk_shortcut: Seq<char>, uninstall_shortcut: Seq<char>, tray_shortcut: Seq<char>, tmp_path: Seq<char>, app_name: Seq<char>) -> Seq<char> {
    concat_all(cleanup_lines_pieces(mk_shortcut, uninstall_shortcut, tray_shortcut, tmp_path, app_name))
}

/// The commands that remove the scripts and shortcuts an installation
/// leaves in the temporary directory.
pub fn cleanup_lines(mk_shortcut: &str, uninstall_shortcut: &str, tray_shortcut: &str, tmp_path: &str, app_name: &str) -> (r: String)
    ensures
        r@ == cleanup_lines_text(mk_shortcut@, uninstall_shortcut@, tray_shortcut@, tmp_path@, app_name@),
{
    let pieces: Vec<&str> = vec![
        "\nif exist \"",
        mk_shortcut,
        "\" del /f /q \"",
        mk_shortcut,
        "\"\nif exist \"",
        uninstall_shortcut,
        "\" del /f /q \"",
        uninstall_shortcut,
        "\"\nif exist \"",
        tray_shortcut,
        "\" del /f /q \"",
        tray_shortcut,
        "\"\nif exist \"",
        tmp_path,
        "\\",
        app_name,
        ".lnk\" del /f /q \"",
        tmp_path,
        "\\",
        app_name,
        ".lnk\"\nif exist \"",
        tmp_path,
        "\\Uninstall ",
        app_name,
        ".lnk\" del /f /q \"",
        tmp_path,
        "\\Uninstall ",
        app_name,
        ".lnk\"\nif exist \"",
        tmp_path,
        "\\",
        app_name,
        " Tray.lnk\" del /f /q \"",
        tmp_path,
        "\\",
        app_name,
        " Tray.lnk\"\n        ",
    ];
    assert(slices(pieces@) =~= cleanup_lines_pieces(mk_shortcut@, uninstall_shortcut@, tray_shortcut@, tmp_path@, app_name@));
    concat(&pieces)
}

/// The commands that make the shortcut of the tray icon and have it
/// started with the system.
pub open spec fn tray_lines_pieces(tray_shortcut: Seq<char>, tmp_path: Seq<char>, app_name: Seq<char>) -> Seq<Seq<char>> {
    seq![
        "\ncscript \""@,
        tray_shortcut,
        "\"\ncopy /Y \""@,
        tmp_path,
        "\\"@,
        app_name,
        " Tray.lnk\" \"%PROGRAMDATA%\\Microsoft\\Windows\\Start Menu\\Programs\\Startup\\\"\n"@,
    ]
}

/// The commands that make the shortcut of the tray icon and have it
/// started with the system.
pub open spec fn tray_lines_text(tray_shortcut: Seq<char>, tmp_path: Seq<char>, app_name: Seq<char>) -> Seq<char> {
    concat_all(tray_lines_pieces(tray_shortcut, tmp_path, app_name))
}

/// The commands that make the shortcut of the tray icon and have it
/// started with the system.
pub fn tray_lines(tray_shortcut: &str, tmp_path: &str, app_name: &str) -> (r: String)
    ensures
        r@ == tray_lines_text(tray_shortcut@, tmp_path@, app_name@),
{
    let pieces: Vec<&str> = vec![
        "\ncscript \"",
        tray_shortcut,
        "\"\ncopy /Y \"",
        tmp_path,
        "\\",
        app_name,
        " Tray.lnk\" \"%PROGRAMDATA%\\Microsoft\\Windows\\Start Menu\\Programs\\Startup\\\"\n",
    ];
    assert(slices(pieces@) =~= tray_lines_pieces(tray_shortcut@, tmp_path@, app_name@));
    concat(&pieces)
}

/// The commands of an installation.
pub open spec fn install_script_pieces(uninstall_str: Seq<char>, path: Seq<char>, copy_exe: Seq<char>, subkey: Seq<char>, exe: Seq<char>, app_name: Seq<char>, version: Seq<char>, build_date: Seq<char>, version_major: Seq<char>, version_minor: Seq<char>, version_build: Seq<char>, size: Seq<char>, mk_shortcut: Seq<char>, uninstall_shortcut: Seq<char>, tray_shortcuts: Seq<char>, shortcuts: Seq<char>, tmp_path: Seq<char>, dels: Seq<char>, import_config: Seq<char>, after_install: Seq<char>, install_remote_printer: Seq<char>, sleep: Seq<char>) -> Seq<Seq<char>> {
    seq![
        "\n"@,
        uninstall_str,
        "\nchcp 65001\nmd \""@,
        path,
        "\"\n"@,
        copy_exe,
        "\nreg add "@,
        subkey,
        " /f\nreg add "@,
        subkey,
        " /f /v DisplayIcon /t REG_SZ /d \""@,
        exe,
        "\"\nreg add "@,
        subkey,
        " /f /v DisplayName /t REG_SZ /d \""@,
        app_name,
        "\"\nreg add "@,
        subkey,
        " /f /v DisplayVersion /t REG_SZ /d \""@,
        version,
        "\"\nreg add "@,
        subkey,
        " /f /v Version /t REG_SZ /d \""@,
        version,
        "\"\nreg add "@,
        subkey,
        " /f /v BuildDate /t REG_SZ /d \""@,
        build_date,
        "\"\nreg add "@,
        subkey,
        " /f /v InstallLocation /t REG_SZ /d \""@,
        path,
        "\"\nreg add "@,
        subkey,
        " /f /v Publisher /t REG_SZ /d \""@,
        app_name,
        "\"\nreg add "@,
        subkey,
        " /f /v VersionMajor /t REG_DWORD /d "@,
        version_major,
        "\nreg add "@,
        subkey,
        " /f /v VersionMinor /t REG_DWORD /d "@,
        version_minor,
        "\nreg add "@,
        subkey,
        " /f /v VersionBuild /t REG_DWORD /d "@,
        version_build,
        "\nreg add "@,
        subkey,
        " /f /v UninstallString /t REG_SZ /d \"\\\""@,
        exe,
        "\\\" --uninstall\"\nreg add "@,
        subkey,
        " /f /v EstimatedSize /t REG_DWORD /d "@,
        size,
        "\nreg add "@,
        subkey,
        " /f /v WindowsInstaller /t REG_DWORD /d 0\ncscript \""@,
        mk_shortcut,
        "\"\ncscript \""@,
        uninstall_shortcut,
        "\"\n"@,
        tray_shortcuts,
        "\n"@,
        shortcuts,
        "\ncopy /Y \""@,
        tmp_path,
        "\\Uninstall "@,
        app_name,
        ".lnk\" \""@,
        path,
        "\\\"\n"@,
        dels,
        "\n"@,
        import_config,
        "\n"@,
        after_install,
        "\n"@,
        install_remote_printer,
        "\n"@,
        sleep,
        "\n    "@,
    ]
}

/// The commands of an installation.
pub open spec fn install_script_text(uninstall_str: Seq<char>, path: Seq<char>, copy_exe: Seq<char>, subkey: Seq<char>, exe: Seq<char>, app_name: Seq<char>, version: Seq<char>, build_date: Seq<char>, version_major: Seq<char>, version_minor: Seq<char>, version_build: Seq<char>, size: Seq<char>, mk_shortcut: Seq<char>, uninstall_shortcut: Seq<char>, tray_shortcuts: Seq<char>, shortcuts: Seq<char>, tmp_path: Seq<char>, dels: Seq<char>, import_config: Seq<char>, after_install: Seq<char>, install_remote_printer: Seq<char>, sleep: Seq<char>) -> Seq<char> {
    concat_all(install_script_pieces(uninstall_str, path, copy_exe, subkey, exe, app_name, version, build_date, version_major, version_minor, version_build, size, mk_shortcut, uninstall_shortcut, tray_shortcuts, shortcuts, tmp_path, dels, import_config, after_install, install_remote_printer, sleep))
}

/// The commands of an installation.
pub fn install_script(uninstall_str: &str, path: &str, copy_exe: &str, subkey: &str, exe: &str, app_name: &str, version: &str, build_date: &str, version_major: &str, version_minor: &str, version_build: &str, size: &str, mk_shortcut: &str, uninstall_shortcut: &str, tray_shortcuts: &str, shortcuts: &str, tmp_path: &str, dels: &str, import_config: &str, after_install: &str, install_remote_printer: &str, sleep: &str) -> (r: String)
    ensures
        r@ == install_script_text(uninstall_str@, path@, copy_exe@, subkey@, exe@, app_name@, version@, build_date@, version_major@, version_minor@, version_build@, size@, mk_shortcut@, uninstall_shortcut@, tray_shortcuts@, shortcuts@, tmp_path@, dels@, import_config@, after_install@, install_remote_printer@, sleep@),
{
    let pieces: Vec<&str> = vec![
        "\n",
        uninstall_str,
        "\nchcp 65001\nmd \"",
        path,
        "\"\n",
        copy_exe,
        "\nreg add ",
        subkey,
        " /f\nreg add ",
        subkey,
        " /f /v DisplayIcon /t REG_SZ /d \"",
        exe,
        "\"\nreg add ",
        subkey,
        " /f /v DisplayName /t REG_SZ /d \"",
        app_name,
        "\"\nreg add ",
        subkey,
        " /f /v DisplayVersion /t REG_SZ /d \"",
        version,
        "\"\nreg add ",
        subkey,
        " /f /v Version /t REG_SZ /d \"",
        version,
        "\"\nreg add ",
        subkey,
        " /f /v BuildDate /t REG_SZ /d \"",
        build_date,
        "\"\nreg add ",
        subkey,
        " /f /v InstallLocation /t REG_SZ /d \"",
        path,
        "\"\nreg add ",
        subkey,
        " /f /v Publisher /t REG_SZ /d \"",
        app_name,
        "\"\nreg add ",
        subkey,
        " /f /v VersionMajor /t REG_DWORD /d ",
        version_major,
        "\nreg add ",
        subkey,
        " /f /v VersionMinor /t REG_DWORD /d ",
        version_minor,
        "\nreg add ",
        subkey,
        " /f /v VersionBuild /t REG_DWORD /d ",
        version_build,
        "\nreg add ",
        subkey,
        " /f /v UninstallString /t REG_SZ /d \"\\\"",
        exe,
        "\\\" --uninstall\"\nreg add ",
        subkey,
        " /f /v EstimatedSize /t REG_DWORD /d ",
        size,
        "\nreg add ",
        subkey,
        " /f /v WindowsInstaller /t REG_DWORD /d 0\ncscript \"",
        mk_shortcut,
        "\"\ncscript \"",
        uninstall_shortcut,
        "\"\n",
        tray_shortcuts,
        "\n",
        shortcuts,
        "\ncopy /Y \"",
        tmp_path,
        "\\Uninstall ",
        app_name,
        ".lnk\" \"",
        path,
        "\\\"\n",
        dels,
        "\n",
        import_config,
        "\n",
        after_install,
        "\n",
        install_remote_printer,
        "\n",
        sleep,
        "\n    ",
    ];
    assert(slices(pieces@) =~= install_script_pieces(uninstall_str@, path@, copy_exe@, subkey@, exe@, app_name@, version@, build_date@, version_major@, version_minor@, version_build@, size@, mk_shortcut@, uninstall_shortcut@, tray_shortcuts@, shortcuts@, tmp_path@, dels@, import_config@, after_install@, install_remote_printer@, sleep@));
    concat(&pieces)
}

/// The filter that spares one process when the processes of an image are ended.
pub open spec fn except_pid_pieces(pid: Seq<char>) -> Seq<Seq<char>> {
    seq![
        " /FI \"PID ne "@,
        pid,
        "\""@,
    ]
}

/// The filter that spares one process when the processes of an image are ended.
pub open spec fn except_pid_text(pid: Seq<char>) -> Seq<char> {
    concat_all(except_pid_pieces(pid))
}

/// The filter that spares one process when the processes of an image are ended.
pub fn except_pid(pid: &str) -> (r: String)
    ensures
        r@ == except_pid_text(pid@),
{
    let pieces: Vec<&str> = vec![
        " /FI \"PID ne ",
        pid,
        "\"",
    ];
    assert(slices(pieces@) =~= except_pid_pieces(pid@));
    concat(&pieces)
}

/// The commands that stop the program and take back what it registered
/// with the system.
pub open spec fn before_uninstall_script_pieces(app_name: Seq<char>, broker_exe: Seq<char>, filter: Seq<char>, ext: Seq<char>) -> Seq<Seq<char>> {
    seq![
        "\n    chcp 65001\n    sc stop "@,
        app_name,
        "\n    sc delete "@,
        app_name,
        "\n    taskkill /F /IM "@,
        broker_exe,
        "\n    taskkill /F /IM "@,
        app_name,
        ".exe"@,
        filter,
        "\n    reg delete HKEY_CLASSES_ROOT\\."@,
        ext,
        " /f\n    reg delete HKEY_CLASSES_ROOT\\"@,
        ext,
        " /f\n    netsh advfirewall firewall delete rule name=\""@,
        app_name,
        " Service\"\n    "@,
    ]
}

/// The commands that stop the program and take back what it registered
/// with the system.
pub open spec fn before_uninstall_script_text(app_name: Seq<char>, broker_exe: Seq<char>, filter: Seq<char>, ext: Seq<char>) -> Seq<char> {
    concat_all(before_uninstall_script_pieces(app_name, broker_exe, filter, ext))
}

/// The commands that stop the program and take back what it registered
/// with the system.
pub fn before_uninstall_script(app_name: &str, broker_exe: &str, filter: &str, ext: &str) -> (r: String)
    ensures
        r@ == before_uninstall_script_text(app_name@, broker_exe@, filter@, ext@),
{
    let pieces: Vec<&str> = vec![
        "\n    chcp 65001\n    sc stop ",
        app_name,
        "\n    sc delete ",
        app_name,
        "\n    taskkill /F /IM ",
        broker_exe,
        "\n    taskkill /F /IM ",
        app_name,
        ".exe",
        filter,
        "\n    reg delete HKEY_CLASSES_ROOT\\.",
        ext,
        " /f\n    reg delete HKEY_CLASSES_ROOT\\",
        ext,
        " /f\n    netsh advfirewall firewall delete rule name=\"",
        app_name,
        " Service\"\n    ",
    ];
    assert(slices(pieces@) =~= before_uninstall_script_pieces(app_name@, broker_exe@, filter@, ext@));
    concat(&pieces)
}

/// The commands that remove the program.
pub open spec fn uninstall_script_pieces(before_uninstall: Seq<char>, uninstall_printer_cmd: Seq<char>, uninstall_cert_cmd: Seq<char>, subkey: Seq<char>, uninstall_amyuni_idd: Seq<char>, path: Seq<char>, start_menu: Seq<char>, app_name: Seq<char>) -> Seq<Seq<char>> {
    seq![
        "\n    "@,
        before_uninstall,
        "\n    "@,
        uninstall_printer_cmd,
        "\n    "@,
        uninstall_cert_cmd,
        "\n    reg delete "@,
        subkey,
        " /f\n    "@,
        uninstall_amyuni_idd,
        "\n    if exist \""@,
        path,
        "\" rd /s /q \""@,
        path,
        "\"\n    if exist \""@,
        start_menu,
        "\" rd /s /q \""@,
        start_menu,
        "\"\n    if exist \"%PUBLIC%\\Desktop\\"@,
        app_name,
        ".lnk\" del /f /q \"%PUBLIC%\\Desktop\\"@,
        app_name,
        ".lnk\"\n    if exist \"%PROGRAMDATA%\\Microsoft\\Windows\\Start Menu\\Programs\\Startup\\"@,
        app_name,
        " Tray.lnk\" del /f /q \"%PROGRAMDATA%\\Microsoft\\Windows\\Start Menu\\Programs\\Startup\\"@,
        app_name,
        " Tray.lnk\"\n    "@,
    ]
}

/// The commands that remove the program.
pub open spec fn uninstall_script_text(before_uninstall: Seq<char>, uninstall_printer_cmd: Seq<char>, uninstall_cert_cmd: Seq<char>, subkey: Seq<char>, uninstall_amyuni_idd: Seq<char>, path: Seq<char>, start_menu: Seq<char>, app_name: Seq<char>) -> Seq<char> {
    concat_all(uninstall_script_pieces(before_uninstall, uninstall_printer_cmd, uninstall_cert_cmd, subkey, uninstall_amyuni_idd, path, start_menu, app_name))
}

/// The commands that remove the program.
pub fn uninstall_script(before_uninstall: &str, uninstall_printer_cmd: &str, uninstall_cert_cmd: &str, subkey: &str, uninstall_amyuni_idd: &str, path: &str, start_menu: &str, app_name: &str) -> (r: String)
    ensures
        r@ == uninstall_script_text(before_uninstall@, uninstall_printer_cmd@, uninstall_cert_cmd@, subkey@, uninstall_amyuni_idd@, path@, start_menu@, app_name@),
{
    let pieces: Vec<&str> = vec![
        "\n    ",
        before_uninstall,
        "\n    ",
        uninstall_printer_cmd,
        "\n    ",
        uninstall_cert_cmd,
        "\n    reg delete ",
        subkey,
        " /f\n    ",
        uninstall_amyuni_idd,
        "\n    if exist \"",
        path,
        "\" rd /s /q \"",
        path,
        "\"\n    if exist \"",
        start_menu,
        "\" rd /s /q \"",
        start_menu,
        "\"\n    if exist \"%PUBLIC%\\Desktop\\",
        app_name,
        ".lnk\" del /f /q \"%PUBLIC%\\Desktop\\",
        app_name,
        ".lnk\"\n    if exist \"%PROGRAMDATA%\\Microsoft\\Windows\\Start Menu\\Programs\\Startup\\",
        app_name,
        " Tray.lnk\" del /f /q \"%PROGRAMDATA%\\Microsoft\\Windows\\Start Menu\\Programs\\Startup\\",
        app_name,
        " Tray.lnk\"\n    ",
    ];
    assert(slices(pieces@) =~= uninstall_script_pieces(before_uninstall@, uninstall_printer_cmd@, uninstall_cert_cmd@, subkey@, uninstall_amyuni_idd@, path@, start_menu@, app_name@));
    concat(&pieces)
}

/// The command that records a changed option of the installation.
pub open spec fn update_option_line_pieces(ext: Seq<char>, k: Seq<char>, v: Seq<char>) -> Seq<Seq<char>> {
    seq![
        "chcp 65001 && reg add HKEY_CLASSES_ROOT\\."@,
        ext,
        " /f /v "@,
        k,
        " /t REG_SZ /d \""@,
        v,
        "\""@,
    ]
}

/// The command that records a changed option of the installation.
pub open spec fn update_option_line_text(ext: Seq<char>, k: Seq<char>, v: Seq<char>) -> Seq<char> {
    concat_all(update_option_line_pieces(ext, k, v))
}

/// The command that records a changed option of the installation.
pub fn update_option_line(ext: &str, k: &str, v: &str) -> (r: String)
    ensures
        r@ == update_option_line_text(ext@, k@, v@),
{
    let pieces: Vec<&str> = vec![
        "chcp 65001 && reg add HKEY_CLASSES_ROOT\\.",
        ext,
        " /f /v ",
        k,
        " /t REG_SZ /d \"",
        v,
        "\"",
    ];
    assert(slices(pieces@) =~= update_option_line_pieces(ext@, k@, v@));
    concat(&pieces)
}

/// The script that puts a shortcut on the desktop that connects to a peer.
pub open spec fn create_shortcut_pieces(id: Seq<char>, exe: Seq<char>) -> Seq<Seq<char>> {
    seq![
        "\nSet oWS = WScript.CreateObject(\"WScript.Shell\")\nstrDesktop = oWS.SpecialFolders(\"Desktop\")\nSet objFSO = CreateObject(\"Scripting.FileSystemObject\")\nsLinkFile = objFSO.BuildPath(strDesktop, \""@,
        id,
        ".lnk\")\nSet oLink = oWS.CreateShortcut(sLinkFile)\n    oLink.TargetPath = \""@,
        exe,
        "\"\n    oLink.Arguments = \"--connect "@,
        id,
        "\"\noLink.Save\n        "@,
    ]
}

/// The script that puts a shortcut on the desktop that connects to a peer.
pub open spec fn create_shortcut_text(id: Seq<char>, exe: Seq<char>) -> Seq<char> {
    concat_all(create_shortcut_pieces(id, exe))
}

/// The script that puts a shortcut on the desktop that connects to a peer.
pub fn create_shortcut(id: &str, exe: &str) -> (r: String)
    ensures
        r@ == create_shortcut_text(id@, exe@),
{
    let pieces: Vec<&str> = vec![
        "\nSet oWS = WScript.CreateObject(\"WScript.Shell\")\nstrDesktop = oWS.SpecialFolders(\"Desktop\")\nSet objFSO = CreateObject(\"Scripting.FileSystemObject\")\nsLinkFile = objFSO.BuildPath(strDesktop, \"",
        id,
        ".lnk\")\nSet oLink = oWS.CreateShortcut(sLinkFile)\n    oLink.TargetPath = \"",
        exe,
        "\"\n    oLink.Arguments = \"--connect ",
        id,
        "\"\noLink.Save\n        ",
    ];
    assert(slices(pieces@) =~= create_shortcut_pieces(id@, exe@));
    concat(&pieces)
}

/// The commands that stop and remove the service.
pub open spec fn uninstall_service_script_pieces(app_name: Seq<char>, broker_exe: Seq<char>, filter: Seq<char>) -> Seq<Seq<char>> {
    seq![
        "\n    chcp 65001\n    sc stop "@,
        app_name,
        "\n    sc delete "@,
        app_name,
        "\n    if exist \"%PROGRAMDATA%\\Microsoft\\Windows\\Start Menu\\Programs\\Startup\\"@,
        app_name,
        " Tray.lnk\" del /f /q \"%PROGRAMDATA%\\Microsoft\\Windows\\Start Menu\\Programs\\Startup\\"@,
        app_name,
        " Tray.lnk\"\n    taskkill /F /IM "@,
        broker_exe,
        "\n    taskkill /F /IM "@,
        app_name,
        ".exe"@,
        filter,
        "\n    "@,
    ]
}

/// The commands that stop and remove the service.
pub open spec fn uninstall_service_script_text(app_name: Seq<char>, broker_exe: Seq<char>, filter: Seq<char>) -> Seq<char> {
    concat_all(uninstall_service_script_pieces(app_name, broker_exe, filter))
}

/// The commands that stop and remove the service.
pub fn uninstall_service_script(app_name: &str, broker_exe: &str, filter: &str) -> (r: String)
    ensures
        r@ == uninstall_service_script_text(app_name@, broker_exe@, filter@),
{
    let pieces: Vec<&str> = vec![
        "\n    chcp 65001\n    sc stop ",
        app_name,
        "\n    sc delete ",
        app_name,
        "\n    if exist \"%PROGRAMDATA%\\Microsoft\\Windows\\Start Menu\\Programs\\Startup\\",
        app_name,
        " Tray.lnk\" del /f /q \"%PROGRAMDATA%\\Microsoft\\Windows\\Start Menu\\Programs\\Startup\\",
        app_name,
        " Tray.lnk\"\n    taskkill /F /IM ",
        broker_exe,
        "\n    taskkill /F /IM ",
        app_name,
        ".exe",
        filter,
        "\n    ",
    ];
    assert(slices(pieces@) =~= uninstall_service_script_pieces(app_name@, broker_exe@, filter@));
    concat(&pieces)
}

/// The commands that set up the service.
pub open spec fn install_service_script_pieces(app_name: Seq<char>, filter: Seq<char>, tray_shortcut: Seq<char>, tmp_path: Seq<char>, import_config: Seq<char>, create_service: Seq<char>) -> Seq<Seq<char>> {
    seq![
        "\nchcp 65001\ntaskkill /F /IM "@,
        app_name,
        ".exe"@,
        filter,
        "\ncscript \""@,
        tray_shortcut,
        "\"\ncopy /Y \""@,
        tmp_path,
        "\\"@,
        app_name,
        " Tray.lnk\" \"%PROGRAMDATA%\\Microsoft\\Windows\\Start Menu\\Programs\\Startup\\\"\n"@,
        import_config,
        "\n"@,
        create_service,
        "\nif exist \""@,
        tray_shortcut,
        "\" del /f /q \""@,
        tray_shortcut,
        "\"\n    "@,
    ]
}

/// The commands that set up the service.
pub open spec fn install_service_script_text(app_name: Seq<char>, filter: Seq<char>, tray_shortcut: Seq<char>, tmp_path: Seq<char>, import_config: Seq<char>, create_service: Seq<char>) -> Seq<char> {
    concat_all(install_service_script_pieces(app_name, filter, tray_shortcut, tmp_path, import_config, create_service))
}

/// The commands that set up the service.
pub fn install_service_script(app_name: &str, filter: &str, tray_shortcut: &str, tmp_path: &str, import_config: &str, create_service: &str) -> (r: String)
    ensures
        r@ == install_service_script_text(app_name@, filter@, tray_shortcut@, tmp_path@, import_config@, create_service@),
{
    let pieces: Vec<&str> = vec![
        "\nchcp 65001\ntaskkill /F /IM ",
        app_name,
        ".exe",
        filter,
        "\ncscript \"",
        tray_shortcut,
        "\"\ncopy /Y \"",
        tmp_path,
        "\\",
        app_name,
        " Tray.lnk\" \"%PROGRAMDATA%\\Microsoft\\Windows\\Start Menu\\Programs\\Startup\\\"\n",
        import_config,
        "\n",
        create_service,
        "\nif exist \"",
        tray_shortcut,
        "\" del /f /q \"",
        tray_shortcut,
        "\"\n    ",
    ];
    assert(slices(pieces@) =~= install_service_script_pieces(app_name@, filter@, tray_shortcut@, tmp_path@, import_config@, create_service@));
    concat(&pieces)
}

/// The commands that record the version of an updated installation.
pub open spec fn update_reg_lines_pieces(subkey: Seq<char>, exe: Seq<char>, version: Seq<char>, build_date: Seq<char>, version_major: Seq<char>, version_minor: Seq<char>, version_build: Seq<char>, size: Seq<char>) -> Seq<Seq<char>> {
    seq![
        "\nreg add "@,
        subkey,
        " /f /v DisplayIcon /t REG_SZ /d \""@,
        exe,
        "\"\nreg add "@,
        subkey,
        " /f /v DisplayVersion /t REG_SZ /d \""@,
        version,
        "\"\nreg add "@,
        subkey,
        " /f /v Version /t REG_SZ /d \""@,
        version,
        "\"\nreg add "@,
        subkey,
        " /f /v BuildDate /t REG_SZ /d \""@,
        build_date,
        "\"\nreg add "@,
        subkey,
        " /f /v VersionMajor /t REG_DWORD /d "@,
        version_major,
        "\nreg add "@,
        subkey,
        " /f /v VersionMinor /t REG_DWORD /d "@,
        version_minor,
        "\nreg add "@,
        subkey,
        " /f /v VersionBuild /t REG_DWORD /d "@,
        version_build,
        "\nreg add "@,
        subkey,
        " /f /v EstimatedSize /t REG_DWORD /d "@,
        size,
        "\n    "@,
    ]
}

/// The commands that record the version of an updated installation.
pub open spec fn update_reg_lines_text(subkey: Seq<char>, exe: Seq<char>, version: Seq<char>, build_date: Seq<char>, version_major: Seq<char>, version_minor: Seq<char>, version_build: Seq<char>, size: Seq<char>) -> Seq<char> {
    concat_all(update_reg_lines_pieces(subkey, exe, version, build_date, version_major, version_minor, version_build, size))
}

/// The commands that record the version of an updated installation.
pub fn update_reg_lines(subkey: &str, exe: &str, version: &str, build_date: &str, version_major: &str, version_minor: &str, version_build: &str, size: &str) -> (r: String)
    ensures
        r@ == update_reg_lines_text(subkey@, exe@, version@, build_date@, version_major@, version_minor@, version_build@, size@),
{
    let pieces: Vec<&str> = vec![
        "\nreg add ",
        subkey,
        " /f /v DisplayIcon /t REG_SZ /d \"",
        exe,
        "\"\nreg add ",
        subkey,
        " /f /v DisplayVersion /t REG_SZ /d \"",
        version,
        "\"\nreg add ",
        subkey,
        " /f /v Version /t REG_SZ /d \"",
        version,
        "\"\nreg add ",
        subkey,
        " /f /v BuildDate /t REG_SZ /d \"",
        build_date,
        "\"\nreg add ",
        subkey,
        " /f /v VersionMajor /t REG_DWORD /d ",
        version_major,
        "\nreg add ",
        subkey,
        " /f /v VersionMinor /t REG_DWORD /d ",
        version_minor,
        "\nreg add ",
        subkey,
        " /f /v VersionBuild /t REG_DWORD /d ",
        version_build,
        "\nreg add ",
        subkey,
        " /f /v EstimatedSize /t REG_DWORD /d ",
        size,
        "\n    ",
    ];
    assert(slices(pieces@) =~= update_reg_lines_pieces(subkey@, exe@, version@, build_date@, version_major@, version_minor@, version_build@, size@));
    concat(&pieces)
}

/// The command that starts the service.
pub open spec fn sc_start_line_pieces(app_name: Seq<char>) -> Seq<Seq<char>> {
    seq![
        "sc start "@,
        app_name,
    ]
}

/// The command that starts the service.
pub open spec fn sc_start_line_text(app_name: Seq<char>) -> Seq<char> {
    concat_all(sc_start_line_pieces(app_name))
}

/// The command that starts the service.
pub fn sc_start_line(app_name: &str) -> (r: String)
    ensures
        r@ == sc_start_line_text(app_name@),
{
    let pieces: Vec<&str> = vec![
        "sc start ",
        app_name,
    ];
    assert(slices(pieces@) =~= sc_start_line_pieces(app_name@));
    concat(&pieces)
}

/// The commands of an update.
pub open spec fn update_script_pieces(app_name: Seq<char>, filter: Seq<char>, reg_cmd: Seq<char>, copy_exe: Seq<char>, restore_service_cmd: Seq<char>, uninstall_printer_cmd: Seq<char>, install_printer_cmd: Seq<char>, sleep: Seq<char>) -> Seq<Seq<char>> {
    seq![
        "\nchcp 65001\nsc stop "@,
        app_name,
        "\ntaskkill /F /IM "@,
        app_name,
        ".exe"@,
        filter,
        "\n"@,
        reg_cmd,
        "\n"@,
        copy_exe,
        "\n"@,
        restore_service_cmd,
        "\n"@,
        uninstall_printer_cmd,
        "\n"@,
        install_printer_cmd,
        "\n"@,
        sleep,
        "\n    "@,
    ]
}

/// The commands of an update.
pub open spec fn update_script_text(app_name: Seq<char>, filter: Seq<char>, reg_cmd: Seq<char>, copy_exe: Seq<char>, restore_service_cmd: Seq<char>, uninstall_printer_cmd: Seq<char>, install_printer_cmd: Seq<char>, sleep: Seq<char>) -> Seq<char> {
    concat_all(update_script_pieces(app_name, filter, reg_cmd, copy_exe, restore_service_cmd, uninstall_printer_cmd, install_printer_cmd, sleep))
}

/// The commands of an update.
pub fn update_script(app_name: &str, filter: &str, reg_cmd: &str, copy_exe: &str, restore_service_cmd: &str, uninstall_printer_cmd: &str, install_printer_cmd: &str, sleep: &str) -> (r: String)
    ensures
        r@ == update_script_text(app_name@, filter@, reg_cmd@, copy_exe@, restore_service_cmd@, uninstall_printer_cmd@, install_printer_cmd@, sleep@),
{
    let pieces: Vec<&str> = vec![
        "\nchcp 65001\nsc stop ",
        app_name,
        "\ntaskkill /F /IM ",
        app_name,
        ".exe",
        filter,
        "\n",
        reg_cmd,
        "\n",
        copy_exe,
        "\n",
        restore_service_cmd,
        "\n",
        uninstall_printer_cmd,
        "\n",
        install_printer_cmd,
        "\n",
        sleep,
        "\n    ",
    ];
    assert(slices(pieces@) =~= update_script_pieces(app_name@, filter@, reg_cmd@, copy_exe@, restore_service_cmd@, uninstall_printer_cmd@, install_printer_cmd@, sleep@));
    concat(&pieces)
}

/// The command that runs an installer package.
pub open spec fn msi_line_pieces(msi: Seq<char>, options: Seq<char>) -> Seq<Seq<char>> {
    seq![
        "chcp 65001 && msiexec /i "@,
        msi,
        " "@,
        options,
    ]
}

/// The command that runs an installer package.
pub open spec fn msi_line_text(msi: Seq<char>, options: Seq<char>) -> Seq<char> {
    concat_all(msi_line_pieces(msi, options))
}

/// The command that runs an installer package.
pub fn msi_line(msi: &str, options: &str) -> (r: String)
    ensures
        r@ == msi_line_text(msi@, options@),
{
    let pieces: Vec<&str> = vec![
        "chcp 65001 && msiexec /i ",
        msi,
        " ",
        options,
    ];
    assert(slices(pieces@) =~= msi_line_pieces(msi@, options@));
    concat(&pieces)
}

/// The script that makes the shortcut of the tray icon.
pub open spec fn get_tray_shortcut_pieces(tmp_path: Seq<char>, app_name: Seq<char>, exe: Seq<char>) -> Seq<Seq<char>> {
    seq![
        "\nSet oWS = WScript.CreateObject(\"WScript.Shell\")\nsLinkFile = \""@,
        tmp_path,
        "\\"@,
        app_name,
        " Tray.lnk\"\n\nSet oLink = oWS.CreateShortcut(sLinkFile)\n    oLink.TargetPath = \""@,
        exe,
        "\"\n    oLink.Arguments = \"--tray\"\noLink.Save\n        "@,
    ]
}

/// The script that makes the shortcut of the tray icon.
pub open spec fn get_tray_shortcut_text(tmp_path: Seq<char>, app_name: Seq<char>, exe: Seq<char>) -> Seq<char> {
    concat_all(get_tray_shortcut_pieces(tmp_path, app_name, exe))
}

/// The script that makes the shortcut of the tray icon.
pub fn get_tray_shortcut(tmp_path: &str, app_name: &str, exe: &str) -> (r: String)
    ensures
        r@ == get_tray_shortcut_text(tmp_path@, app_name@, exe@),
{
    let pieces: Vec<&str> = vec![
        "\nSet oWS = WScript.CreateObject(\"WScript.Shell\")\nsLinkFile = \"",
        tmp_path,
        "\\",
        app_name,
        " Tray.lnk\"\n\nSet oLink = oWS.CreateShortcut(sLinkFile)\n    oLink.TargetPath = \"",
        exe,
        "\"\n    oLink.Arguments = \"--tray\"\noLink.Save\n        ",
    ];
    assert(slices(pieces@) =~= get_tray_shortcut_pieces(tmp_path@, app_name@, exe@));
    concat(&pieces)
}

/// The commands that have the configuration imported by a service that
/// is there for nothing else.
pub open spec fn import_config_script_pieces(app_name: Seq<char>, exe: Seq<char>, config_path: Seq<char>) -> Seq<Seq<char>> {
    seq![
        "\nsc stop "@,
        app_name,
        "\nsc delete "@,
        app_name,
        "\nsc create "@,
        app_name,
        " binpath= \"\\\""@,
        exe,
        "\\\" --import-config \\\""@,
        config_path,
        "\\\"\" start= auto DisplayName= \""@,
        app_name,
        " Service\"\nsc start "@,
        app_name,
        "\nsc stop "@,
        app_name,
        "\nsc delete "@,
        app_name,
        "\n"@,
    ]
}

/// The commands that have the configuration imported by a service that
/// is there for nothing else.
pub open spec fn import_config_script_text(app_name: Seq<char>, exe: Seq<char>, config_path: Seq<char>) -> Seq<char> {
    concat_all(import_config_script_pieces(app_name, exe, config_path))
}

/// The commands that have the configuration imported by a service that
/// is there for nothing else.
pub fn import_config_script(app_name: &str, exe: &str, config_path: &str) -> (r: String)
    ensures
        r@ == import_config_script_text(app_name@, exe@, config_path@),
{
    let pieces: Vec<&str> = vec![
        "\nsc stop ",
        app_name,
        "\nsc delete ",
        app_name,
        "\nsc create ",
        app_name,
        " binpath= \"\\\"",
        exe,
        "\\\" --import-config \\\"",
        config_path,
        "\\\"\" start= auto DisplayName= \"",
        app_name,
        " Service\"\nsc start ",
        app_name,
        "\nsc stop ",
        app_name,
        "\nsc delete ",
        app_name,
        "\n",
    ];
    assert(slices(pieces@) =~= import_config_script_pieces(app_name@, exe@, config_path@));
    concat(&pieces)
}

/// The command that removes the shortcut of the tray icon from the
/// programs started with the system.
pub open spec fn remove_tray_line_pieces(app_name: Seq<char>) -> Seq<Seq<char>> {
    seq![
        "\nif exist \"%PROGRAMDATA%\\Microsoft\\Windows\\Start Menu\\Programs\\Startup\\"@,
        app_name,
        " Tray.lnk\" del /f /q \"%PROGRAMDATA%\\Microsoft\\Windows\\Start Menu\\Programs\\Startup\\"@,
        app_name,
        " Tray.lnk\"\n"@,
    ]
}

/// The command that removes the shortcut of the tray icon from the
/// programs started with the system.
pub open spec fn remove_tray_line_text(app_name: Seq<char>) -> Seq<char> {
    concat_all(remove_tray_line_pieces(app_name))
}

/// The command that removes the shortcut of the tray icon from the
/// programs started with the system.
pub fn remove_tray_line(app_name: &str) -> (r: String)
    ensures
        r@ == remove_tray_line_text(app_name@),
{
    let pieces: Vec<&str> = vec![
        "\nif exist \"%PROGRAMDATA%\\Microsoft\\Windows\\Start Menu\\Programs\\Startup\\",
        app_name,
        " Tray.lnk\" del /f /q \"%PROGRAMDATA%\\Microsoft\\Windows\\Start Menu\\Programs\\Startup\\",
        app_name,
        " Tray.lnk\"\n",
    ];
    assert(slices(pieces@) =~= remove_tray_line_pieces(app_name@));
    concat(&pieces)
}

/// The commands that create the service and start it.
pub open spec fn create_service_script_pieces(app_name: Seq<char>, exe: Seq<char>) -> Seq<Seq<char>> {
    seq![
        "\nsc create "@,
        app_name,
        " binpath= \"\\\""@,
        exe,
        "\\\" --service\" start= auto DisplayName= \""@,
        app_name,
        " Service\"\nsc start "@,
        app_name,
        "\n"@,
    ]
}

/// The commands that create the service and start it.
pub open spec fn create_service_script_text(app_name: Seq<char>, exe: Seq<char>) -> Seq<char> {
    concat_all(create_service_script_pieces(app_name, exe))
}

/// The commands that create the service and start it.
pub fn create_service_script(app_name: &str, exe: &str) -> (r: String)
    ensures
        r@ == create_service_script_text(app_name@, exe@),
{
    let pieces: Vec<&str> = vec![
        "\nsc create ",
        app_name,
        " binpath= \"\\\"",
        exe,
        "\\\" --service\" start= auto DisplayName= \"",
        app_name,
        " Service\"\nsc start ",
        app_name,
        "\n",
    ];
    assert(slices(pieces@) =~= create_service_script_pieces(app_name@, exe@));
    concat(&pieces)
}

/// Why a script could not be put together.
#[derive(Clone, Copy, Debug, PartialEq, Eq, Structural)]
pub enum InstallError {
    /// The running program lies in no directory.
    NoParent,
}

/// The characters of an optional string slice.
pub open spec fn opt_text<'a>(text: Option<&'a str>) -> Option<Seq<char>> {
    match text {
        Some(t) => Some(t@),
        None => None,
    }
}

/// The command that runs a program with one flag: the program in double
/// quotes, a space and the flag.
pub open spec fn self_command(exe: Seq<char>, flag: Seq<char>) -> Seq<char> {
    "\""@ + exe + "\" "@ + flag
}

/// Builds the command that runs a program with one flag.
pub fn run_self(exe: &str, flag: &str) -> (r: String)
    ensures
        r@ == self_command(exe@, flag@),
{
    let mut line = chars_of("\"");
    append_str(&mut line, exe);
    append_str(&mut line, "\" ");
    append_str(&mut line, flag);
    string_of(&line)
}

/// The command that copies the program, if the directory it lies in is known.
pub open spec fn copy_raw_text(src_parent: Option<Seq<char>>, path: Seq<char>) -> Option<
    Seq<char>,
> {
    match src_parent {
        Some(dir) => Some(xcopy_line_text(dir, path)),
        None => None,
    }
}

/// Builds the command that copies the directory of the running program to
/// `path`. `src_parent` is the directory the running program lies in.
pub fn copy_raw_cmd(src_parent: Option<&str>, path: &str) -> (r: Result<String, InstallError>)
    ensures
        match r {
            Ok(cmd) => copy_raw_text(opt_text(src_parent), path@) == Some(cmd@),
            Err(e) => copy_raw_text(opt_text(src_parent), path@) is None && e
                == InstallError::NoParent,
        },
{
    match src_parent {
        Some(dir) => Ok(xcopy_line(dir, path)),
        None => Err(InstallError::NoParent),
    }
}

/// The commands that copy the program and the broker, if the directory the
/// program lies in is known.
pub open spec fn copy_exe_text(
    src_parent: Option<Seq<char>>,
    path: Seq<char>,
    origin_exe: Seq<char>,
    broker_exe: Seq<char>,
) -> Option<Seq<char>> {
    match copy_raw_text(src_parent, path) {
        Some(main_exe) => Some(copy_exe_lines_text(main_exe, origin_exe, path, broker_exe)),
        None => None,
    }
}

/// Builds the commands that copy the program to `path` and the broker of
/// the system beside it.
pub fn copy_exe_cmd(src_parent: Option<&str>, path: &str, origin_exe: &str, broker_exe: &str) -> (r:
    Result<String, InstallError>)
    ensures
        match r {
            Ok(cmd) => copy_exe_text(opt_text(src_parent), path@, origin_exe@, broker_exe@)
                == Some(cmd@),
            Err(e) => copy_exe_text(opt_text(src_parent), path@, origin_exe@, broker_exe@)
                is None && e == InstallError::NoParent,
        },
{
    match copy_raw_cmd(src_parent, path) {
        Ok(main_exe) => Ok(copy_exe_lines(main_exe.as_str(), origin_exe, path, broker_exe)),
        Err(e) => Err(e),
    }
}

/// The commands that set up the service: none for a program that only
/// connects out, the removal of the tray shortcut where the service is to
/// stay stopped, and the creation of the service in any other case.
pub open spec fn create_service_text(
    outgoing_only: bool,
    stop_service: bool,
    app_name: Seq<char>,
    exe: Seq<char>,
) -> Seq<char> {
    if outgoing_only {
        Seq::<char>::empty()
    } else if stop_service {
        remove_tray_line_text(app_name)
    } else {
        create_service_script_text(app_name, exe)
    }
}

/// Builds the commands that set up the service.
pub fn get_create_service(outgoing_only: bool, stop_service: bool, app_name: &str, exe: &str) -> (r:
    String)
    ensures
        r@ == create_service_text(outgoing_only, stop_service, app_name@, exe@),
{
    if outgoing_only {
        String::new()
    } else if stop_service {
        remove_tray_line(app_name)
    } else {
        create_service_script(app_name, exe)
    }
}

/// The commands that have the configuration imported: none for a program
/// that only connects out.
pub open spec fn import_config_text(
    outgoing_only: bool,
    app_name: Seq<char>,
    exe: Seq<char>,
    config_path: Seq<char>,
) -> Seq<char> {
    if outgoing_only {
        Seq::<char>::empty()
    } else {
        import_config_script_text(app_name, exe, config_path)
    }
}

/// Builds the commands that have the configuration imported.
pub fn get_import_config(outgoing_only: bool, app_name: &str, exe: &str, config_path: &str) -> (r:
    String)
    ensures
        r@ == import_config_text(outgoing_only, app_name@, exe@, config_path@),
{
    if outgoing_only {
        String::new()
    } else {
        import_config_script(app_name, exe, config_path)
    }
}

/// The command that records an option, if there is a value to record.
pub open spec fn option_line_text(ext: Seq<char>, name: Seq<char>, value: Option<Seq<char>>) -> Seq<
    char,
> {
    match value {
        Some(v) => reg_option_line_text(ext, name, v),
        None => Seq::<char>::empty(),
    }
}

fn option_line(ext: &str, name: &str, value: Option<&str>) -> (r: String)
    ensures
        r@ == option_line_text(ext@, name@, opt_text(value)),
{
    match value {
        Some(v) => reg_option_line(ext, name, v),
        None => String::new(),
    }
}

/// The commands that follow an installation. The file type and the protocol
/// of the program are named after the program in lowercase.
pub open spec fn after_install_text(
    exe: Seq<char>,
    app_name: Seq<char>,
    start_menu_shortcuts: Option<Seq<char>>,
    desktop_shortcuts: Option<Seq<char>>,
    printer: Option<Seq<char>>,
    outgoing_only: bool,
    stop_service: bool,
) -> Seq<char> {
    let ext = lowercase(app_name);
    after_install_script_text(
        ext,
        option_line_text(ext, REG_NAME_INSTALL_DESKTOPSHORTCUTS@, desktop_shortcuts),
        option_line_text(ext, REG_NAME_INSTALL_STARTMENUSHORTCUTS@, start_menu_shortcuts),
        option_line_text(ext, REG_NAME_INSTALL_PRINTER@, printer),
        exe,
        app_name,
        create_service_text(outgoing_only, stop_service, app_name, exe),
    )
}

/// Builds the commands that follow an installation.
pub fn get_after_install(
    exe: &str,
    app_name: &str,
    start_menu_shortcuts: Option<&str>,
    desktop_shortcuts: Option<&str>,
    printer: Option<&str>,
    outgoing_only: bool,
    stop_service: bool,
) -> (r: String)
    ensures
        r@ == after_install_text(
            exe@,
            app_name@,
            opt_text(start_menu_shortcuts),
            opt_text(desktop_shortcuts),
            opt_text(printer),
            outgoing_only,
            stop_service,
        ),
{
    let ext = to_lowercase(app_name);
    let desktop = option_line(ext.as_str(), REG_NAME_INSTALL_DESKTOPSHORTCUTS, desktop_shortcuts);
    let start_menu = option_line(
        ext.as_str(),
        REG_NAME_INSTALL_STARTMENUSHORTCUTS,
        start_menu_shortcuts,
    );
    let reg_printer = option_line(ext.as_str(), REG_NAME_INSTALL_PRINTER, printer);
    let create_service = get_create_service(outgoing_only, stop_service, app_name, exe);
    after_install_script(
        ext.as_str(),
        desktop.as_str(),
        start_menu.as_str(),
        reg_printer.as_str(),
        exe,
        app_name,
        create_service.as_str(),
    )
}

/// The key of the current user under which a program is registered as a class.
pub fn classes_subkey(exe: &str) -> (r: String)
    ensures
        r@ == "Software\\Classes\\"@ + exe@,
{
    let mut key = chars_of("Software\\Classes\\");
    append_str(&mut key, exe);
    string_of(&key)
}

/// The filter that spares the process `pid`, unless the program is to end
/// itself as well.
pub open spec fn kill_filter(kill_self: bool, pid: u32) -> Seq<char> {
    if kill_self {
        Seq::<char>::empty()
    } else {
        except_pid_text(decimal(pid as nat))
    }
}

fn filter_for(kill_self: bool, pid: u32) -> (r: String)
    ensures
        r@ == kill_filter(kill_self, pid),
{
    if kill_self {
        String::new()
    } else {
        let number = string_of(&decimal_text(pid));
        except_pid(number.as_str())
    }
}

/// The commands that go before a removal.
pub open spec fn before_uninstall_text(
    kill_self: bool,
    app_name: Seq<char>,
    broker_exe: Seq<char>,
    pid: u32,
) -> Seq<char> {
    before_uninstall_script_text(
        app_name,
        broker_exe,
        kill_filter(kill_self, pid),
        lowercase(app_name),
    )
}

/// Builds the commands that go before a removal: the service is stopped
/// and deleted, the processes of the program are ended, all of them or all
/// but the process `pid`, and what the program registered is taken back.
pub fn get_before_uninstall(kill_self: bool, app_name: &str, broker_exe: &str, pid: u32) -> (r:
    String)
    ensures
        r@ == before_uninstall_text(kill_self, app_name@, broker_exe@, pid),
{
    let ext = to_lowercase(app_name);
    let filter = filter_for(kill_self, pid);
    before_uninstall_script(app_name, broker_exe, filter.as_str(), ext.as_str())
}

/// The command that removes the virtual display, if the path of the
/// program is known.
pub open spec fn uninstall_amyuni_idd_text(exe: Option<Seq<char>>) -> Seq<char> {
    match exe {
        Some(path) => self_command(path, "--uninstall-amyuni-idd"@),
        None => Seq::<char>::empty(),
    }
}

/// Builds the command that removes the virtual display.
pub fn get_uninstall_amyuni_idd(exe: Option<&str>) -> (r: String)
    ensures
        r@ == uninstall_amyuni_idd_text(opt_text(exe)),
{
    match exe {
        Some(path) => run_self(path, "--uninstall-amyuni-idd"),
        None => String::new(),
    }
}

/// Whether the program was installed by an installer package: its recorded
/// way of removal names the package installer, in whatever case.
pub open spec fn is_msi_uninstall(reg_uninstall_string: Seq<char>) -> bool {
    contains_text(lowercase(reg_uninstall_string), "msiexec.exe"@)
}

/// The commands that remove the program. A program that an installer
/// package installed is removed the way the registry records.
pub open spec fn uninstall_text(
    kill_self: bool,
    uninstall_printer: bool,
    reg_uninstall_string: Seq<char>,
    exe_path: Option<Seq<char>>,
    amyuni_exe: Option<Seq<char>>,
    subkey: Seq<char>,
    path: Seq<char>,
    start_menu: Seq<char>,
    app_name: Seq<char>,
    broker_exe: Seq<char>,
    pid: u32,
) -> Seq<char> {
    if is_msi_uninstall(reg_uninstall_string) {
        reg_uninstall_string
    } else {
        uninstall_script_text(
            before_uninstall_text(kill_self, app_name, broker_exe, pid),
            match exe_path {
                Some(exe) => if uninstall_printer {
                    self_command(exe, "--uninstall-remote-printer"@)
                } else {
                    Seq::<char>::empty()
                },
                None => Seq::<char>::empty(),
            },
            match exe_path {
                Some(exe) => self_command(exe, "--uninstall-cert"@),
                None => Seq::<char>::empty(),
            },
            subkey,
            uninstall_amyuni_idd_text(amyuni_exe),
            path,
            start_menu,
            app_name,
        )
    }
}

/// Builds the commands that remove the program. `exe_path` is the path of
/// the running program where it is known and is text; `amyuni_exe` is that
/// path where it is known, and empty where it is no text.
pub fn get_uninstall(
    kill_self: bool,
    uninstall_printer: bool,
    reg_uninstall_string: &str,
    exe_path: Option<&str>,
    amyuni_exe: Option<&str>,
    subkey: &str,
    path: &str,
    start_menu: &str,
    app_name: &str,
    broker_exe: &str,
    pid: u32,
) -> (r: String)
    ensures
        r@ == uninstall_text(
            kill_self,
            uninstall_printer,
            reg_uninstall_string@,
            opt_text(exe_path),
            opt_text(amyuni_exe),
            subkey@,
            path@,
            start_menu@,
            app_name@,
            broker_exe@,
            pid,
        ),
{
    let lowered = to_lowercase(reg_uninstall_string);
    if contains(&chars_of(lowered.as_str()), &chars_of("msiexec.exe")) {
        return string_of(&chars_of(reg_uninstall_string));
    }
    let uninstall_cert_cmd = match exe_path {
        Some(exe) => run_self(exe, "--uninstall-cert"),
        None => String::new(),
    };
    let uninstall_printer_cmd = match exe_path {
        Some(exe) => if uninstall_printer {
            run_self(exe, "--uninstall-remote-printer")
        } else {
            String::new()
        },
        None => String::new(),
    };
    let before_uninstall = get_before_uninstall(kill_self, app_name, broker_exe, pid);
    let uninstall_amyuni_idd = get_uninstall_amyuni_idd(amyuni_exe);
    uninstall_script(
        before_uninstall.as_str(),
        uninstall_printer_cmd.as_str(),
        uninstall_cert_cmd.as_str(),
        subkey,
        uninstall_amyuni_idd.as_str(),
        path,
        start_menu,
        app_name,
    )
}

/// The directory a program is installed to: the one asked for without the
/// backslashes at its end, or the default where none is asked for.
pub open spec fn target_path(path: Seq<char>, default_path: Seq<char>) -> Seq<char> {
    if trimmed_end_of(path, '\\').len() == 0 {
        default_path
    } else {
        trimmed_end_of(path, '\\')
    }
}

/// The executable of an installation: the default one, with the directory
/// asked for in place of the default directory wherever that occurs in it.
pub open spec fn target_exe(path: Seq<char>, default_path: Seq<char>, default_exe: Seq<char>) -> Seq<
    char,
> {
    if trimmed_end_of(path, '\\').len() == 0 {
        default_exe
    } else {
        replaced(default_exe, default_path, trimmed_end_of(path, '\\'))
    }
}

/// Works out the directory and the executable of an installation from the
/// directory that is asked for and the defaults.
pub fn install_target(path: &str, default_path: &str, default_exe: &str) -> (r: (String, String))
    ensures
        r.0@ == target_path(path@, default_path@),
        r.1@ == target_exe(path@, default_path@, default_exe@),
{
    let asked = trim_end_matches(&chars_of(path), '\\');
    if asked.len() == 0 {
        (string_of(&chars_of(default_path)), string_of(&chars_of(default_exe)))
    } else {
        let exe = replace(&chars_of(default_exe), &chars_of(default_path), &asked);
        (string_of(&asked), string_of(&exe))
    }
}

/// The `i`th of the numbers a version is made of, or `0` where it has fewer.
pub open spec fn version_field(version: Seq<char>, i: int) -> Seq<char> {
    if 0 <= i < split_on(version, '.').len() {
        split_on(version, '.')[i]
    } else {
        "0"@
    }
}

/// The major, the minor and the build number of a version.
pub fn version_parts(version: &str) -> (r: (String, String, String))
    ensures
        r.0@ == version_field(version@, 0),
        r.1@ == version_field(version@, 1),
        r.2@ == version_field(version@, 2),
{
    let parts = split(&chars_of(version), '.');
    let major = if parts.len() > 0 {
        assert(texts(parts@)[0] == parts@[0]@);
        string_of(&parts[0])
    } else {
        string_of(&chars_of("0"))
    };
    let minor = if parts.len() > 1 {
        assert(texts(parts@)[1] == parts@[1]@);
        string_of(&parts[1])
    } else {
        string_of(&chars_of("0"))
    };
    let build = if parts.len() > 2 {
        assert(texts(parts@)[2] == parts@[2]@);
        string_of(&parts[2])
    } else {
        string_of(&chars_of("0"))
    };
    (major, minor, build)
}

/// A version as the registry records it: with a dot in place of every hyphen.
pub fn dotted_version(version: &str) -> (r: String)
    ensures
        r@ == replaced(version@, "-"@, "."@),
{
    string_of(&replace(&chars_of(version), &chars_of("-"), &chars_of(".")))
}

/// What is asked for in the options of an installation.
pub open spec fn wants(options: Seq<char>, what: Seq<char>) -> bool {
    contains_text(options, what)
}

/// The commands that put up the shortcuts that the options ask for.
pub open spec fn shortcuts_text(
    options: Seq<char>,
    tmp_path: Seq<char>,
    app_name: Seq<char>,
    start_menu: Seq<char>,
) -> Seq<char> {
    let desktop = if wants(options, "desktopicon"@) {
        desktop_shortcut_line_text(tmp_path, app_name)
    } else {
        Seq::<char>::empty()
    };
    if wants(options, "startmenu"@) {
        start_menu_lines_text(desktop, start_menu, tmp_path, app_name)
    } else {
        desktop
    }
}

fn flag_value(set: bool) -> (r: &'static str)
    ensures
        r@ == flag_text(set),
{
    if set {
        "1"
    } else {
        "0"
    }
}

/// How a switch is recorded: `1` when it is on, `0` when it is off.
pub open spec fn flag_text(set: bool) -> Seq<char> {
    if set {
        "1"@
    } else {
        "0"@
    }
}

/// Builds the commands that put up the shortcuts that the options ask for.
pub fn install_shortcuts(options: &str, tmp_path: &str, app_name: &str, start_menu: &str) -> (r:
    String)
    ensures
        r@ == shortcuts_text(options@, tmp_path@, app_name@, start_menu@),
{
    let asked = chars_of(options);
    let desktop = if contains(&asked, &chars_of("desktopicon")) {
        desktop_shortcut_line(tmp_path, app_name)
    } else {
        String::new()
    };
    if contains(&asked, &chars_of("startmenu")) {
        start_menu_lines(desktop.as_str(), start_menu, tmp_path, app_name)
    } else {
        desktop
    }
}

/// The command for the remote printer at an installation: it is installed
/// where the options ask for it and the system can have it, removed where
/// the system could have it but it is not asked for, and left alone on a
/// system that cannot have it.
pub open spec fn remote_printer_text(options: Seq<char>, is_win_10: bool, src_exe: Seq<char>) -> Seq<
    char,
> {
    if wants(options, "printer"@) && is_win_10 {
        self_command(src_exe, "--install-remote-printer"@)
    } else if is_win_10 {
        self_command(src_exe, "--uninstall-remote-printer"@)
    } else {
        Seq::<char>::empty()
    }
}

/// What an installation is made from.
pub struct InstallPlan<'a> {
    /// The options that were chosen: `desktopicon`, `startmenu`, `printer`.
    pub options: &'a str,
    /// The directory that is asked for; empty for the default.
    pub path: &'a str,
    /// Whether the script waits at its end and leaves its files behind.
    pub debug: bool,
    /// The commands that remove an installation that is there already.
    pub uninstall_str: &'a str,
    /// The registry key of the installation.
    pub subkey: &'a str,
    /// The default directory.
    pub default_path: &'a str,
    /// The directory of the start menu entries.
    pub start_menu: &'a str,
    /// The executable in the default directory.
    pub default_exe: &'a str,
    pub app_name: &'a str,
    pub version: &'a str,
    pub build_date: &'a str,
    /// The temporary directory.
    pub tmp_path: &'a str,
    /// The script that makes the shortcut to the program.
    pub mk_shortcut: &'a str,
    /// The script that makes the shortcut that removes the program.
    pub uninstall_shortcut: &'a str,
    /// The script that makes the shortcut of the tray icon.
    pub tray_shortcut: &'a str,
    /// Whether the system is Windows 10 or later.
    pub is_win_10: bool,
    /// The size of the program in kilobytes.
    pub size: u64,
    /// The path of the running program.
    pub src_exe: &'a str,
    /// The directory the running program lies in.
    pub src_parent: Option<&'a str>,
    /// Whether the program only connects out.
    pub outgoing_only: bool,
    /// Whether the service is to stay stopped.
    pub stop_service: bool,
    /// The file of the configuration.
    pub config_path: &'a str,
    /// The broker of the system.
    pub origin_exe: &'a str,
    /// The name of the broker beside the program.
    pub broker_exe: &'a str,
}

/// The commands of an installation, if the directory of the running program
/// is known.
pub open spec fn install_text(plan: InstallPlan) -> Option<Seq<char>> {
    let path = target_path(plan.path@, plan.default_path@);
    let exe = target_exe(plan.path@, plan.default_path@, plan.default_exe@);
    let printer = wants(plan.options@, "printer"@) && plan.is_win_10;
    match copy_exe_text(opt_text(plan.src_parent), path, plan.origin_exe@, plan.broker_exe@) {
        None => None,
        Some(copy_exe) => Some(
            install_script_text(
                plan.uninstall_str@,
                path,
                copy_exe,
                plan.subkey@,
                exe,
                plan.app_name@,
                replaced(plan.version@, "-"@, "."@),
                plan.build_date@,
                version_field(plan.version@, 0),
                version_field(plan.version@, 1),
                version_field(plan.version@, 2),
                decimal(plan.size as nat),
                plan.mk_shortcut@,
                plan.uninstall_shortcut@,
                if plan.outgoing_only {
                    Seq::<char>::empty()
                } else {
                    tray_lines_text(plan.tray_shortcut@, plan.tmp_path@, plan.app_name@)
                },
                shortcuts_text(plan.options@, plan.tmp_path@, plan.app_name@, plan.start_menu@),
                plan.tmp_path@,
                if plan.debug {
                    Seq::<char>::empty()
                } else {
                    cleanup_lines_text(
                        plan.mk_shortcut@,
                        plan.uninstall_shortcut@,
                        plan.tray_shortcut@,
                        plan.tmp_path@,
                        plan.app_name@,
                    )
                },
                import_config_text(plan.outgoing_only, plan.app_name@, exe, plan.config_path@),
                after_install_text(
                    exe,
                    plan.app_name@,
                    Some(flag_text(wants(plan.options@, "startmenu"@))),
                    Some(flag_text(wants(plan.options@, "desktopicon"@))),
                    Some(flag_text(printer)),
                    plan.outgoing_only,
                    plan.stop_service,
                ),
                remote_printer_text(plan.options@, plan.is_win_10, plan.src_exe@),
                if plan.debug {
                    "timeout 300"@
                } else {
                    Seq::<char>::empty()
                },
            ),
        ),
    }
}

/// Builds the commands of an installation: an installation that is there is
/// removed, the program is copied, registered for removal with its version
/// and size, given the shortcuts that the options ask for, and set up with
/// its file type, firewall rules, service and remote printer.
pub fn install_me(plan: &InstallPlan) -> (r: Result<String, InstallError>)
    ensures
        match r {
            Ok(cmds) => install_text(*plan) == Some(cmds@),
            Err(e) => install_text(*plan) is None && e == InstallError::NoParent,
        },
{
    let (path, exe) = install_target(plan.path, plan.default_path, plan.default_exe);
    let (version_major, version_minor, version_build) = version_parts(plan.version);
    let asked = chars_of(plan.options);
    let desktop = contains(&asked, &chars_of("desktopicon"));
    let start = contains(&asked, &chars_of("startmenu"));
    let printer = contains(&asked, &chars_of("printer")) && plan.is_win_10;
    let shortcuts = install_shortcuts(plan.options, plan.tmp_path, plan.app_name, plan.start_menu);
    let dels = if plan.debug {
        String::new()
    } else {
        cleanup_lines(
            plan.mk_shortcut,
            plan.uninstall_shortcut,
            plan.tray_shortcut,
            plan.tmp_path,
            plan.app_name,
        )
    };
    let tray_shortcuts = if plan.outgoing_only {
        String::new()
    } else {
        tray_lines(plan.tray_shortcut, plan.tmp_path, plan.app_name)
    };
    let install_remote_printer = if printer {
        run_self(plan.src_exe, "--install-remote-printer")
    } else if plan.is_win_10 {
        run_self(plan.src_exe, "--uninstall-remote-printer")
    } else {
        String::new()
    };
    let copy_exe = match copy_exe_cmd(
        plan.src_parent,
        path.as_str(),
        plan.origin_exe,
        plan.broker_exe,
    ) {
        Ok(cmd) => cmd,
        Err(e) => {
            return Err(e);
        },
    };
    let version = dotted_version(plan.version);
    let size = string_of(&decimal_text_u64(plan.size));
    let import_config = get_import_config(
        plan.outgoing_only,
        plan.app_name,
        exe.as_str(),
        plan.config_path,
    );
    let after_install = get_after_install(
        exe.as_str(),
        plan.app_name,
        Some(flag_value(start)),
        Some(flag_value(desktop)),
        Some(flag_value(printer)),
        plan.outgoing_only,
        plan.stop_service,
    );
    let sleep = if plan.debug {
        "timeout 300"
    } else {
        ""
    };
    proof {
        reveal_strlit("");
        assert(""@ =~= Seq::<char>::empty());
    }
    Ok(
        install_script(
            plan.uninstall_str,
            path.as_str(),
            copy_exe.as_str(),
            plan.subkey,
            exe.as_str(),
            plan.app_name,
            version.as_str(),
            plan.build_date,
            version_major.as_str(),
            version_minor.as_str(),
            version_build.as_str(),
            size.as_str(),
            plan.mk_shortcut,
            plan.uninstall_shortcut,
            tray_shortcuts.as_str(),
            shortcuts.as_str(),
            plan.tmp_path,
            dels.as_str(),
            import_config.as_str(),
            after_install.as_str(),
            install_remote_printer.as_str(),
            sleep,
        ),
    )
}

/// What an update is made from.
pub struct UpdatePlan<'a> {
    /// Whether the script waits at its end.
    pub debug: bool,
    pub app_name: &'a str,
    /// The path of the running program.
    pub src_exe: &'a str,
    /// The directory the running program lies in.
    pub src_parent: Option<&'a str>,
    /// The registry key of the installation.
    pub subkey: &'a str,
    /// The directory of the installation.
    pub path: &'a str,
    /// The installed executable.
    pub exe: &'a str,
    pub version: &'a str,
    pub build_date: &'a str,
    /// The size of the program in kilobytes.
    pub size: u64,
    /// The id of the running process.
    pub pid: u32,
    /// Whether the service runs and has to be started again.
    pub is_service_running: bool,
    /// Whether the remote printer is installed and has to be installed anew.
    pub is_printer_installed: bool,
    /// The broker of the system.
    pub origin_exe: &'a str,
    /// The name of the broker beside the program.
    pub broker_exe: &'a str,
}

/// The commands of an update, if the directory of the running program is known.
pub open spec fn update_text(plan: UpdatePlan) -> Option<Seq<char>> {
    match copy_exe_text(opt_text(plan.src_parent), plan.path@, plan.origin_exe@, plan.broker_exe@) {
        None => None,
        Some(copy_exe) => Some(
            update_script_text(
                plan.app_name@,
                except_pid_text(decimal(plan.pid as nat)),
                update_reg_lines_text(
                    plan.subkey@,
                    plan.exe@,
                    replaced(plan.version@, "-"@, "."@),
                    plan.build_date@,
                    version_field(plan.version@, 0),
                    version_field(plan.version@, 1),
                    version_field(plan.version@, 2),
                    decimal(plan.size as nat),
                ),
                copy_exe,
                if plan.is_service_running {
                    sc_start_line_text(plan.app_name@)
                } else {
                    Seq::<char>::empty()
                },
                if plan.is_printer_installed {
                    self_command(plan.src_exe@, "--uninstall-remote-printer"@)
                } else {
                    Seq::<char>::empty()
                },
                if plan.is_printer_installed {
                    self_command(plan.src_exe@, "--install-remote-printer"@)
                } else {
                    Seq::<char>::empty()
                },
                if plan.debug {
                    "timeout 300"@
                } else {
                    Seq::<char>::empty()
                },
            ),
        ),
    }
}

/// Builds the commands of an update: the service is stopped and the other
/// processes of the program ended, the new version is recorded and copied
/// over the old one, and the service and the remote printer are brought back
/// if they were there.
pub fn update_me(plan: &UpdatePlan) -> (r: Result<String, InstallError>)
    ensures
        match r {
            Ok(cmds) => update_text(*plan) == Some(cmds@),
            Err(e) => update_text(*plan) is None && e == InstallError::NoParent,
        },
{
    let (version_major, version_minor, version_build) = version_parts(plan.version);
    let version = dotted_version(plan.version);
    let size = string_of(&decimal_text_u64(plan.size));
    let reg_cmd = update_reg_lines(
        plan.subkey,
        plan.exe,
        version.as_str(),
        plan.build_date,
        version_major.as_str(),
        version_minor.as_str(),
        version_build.as_str(),
        size.as_str(),
    );
    let filter = filter_for(false, plan.pid);
    let restore_service_cmd = if plan.is_service_running {
        sc_start_line(plan.app_name)
    } else {
        String::new()
    };
    let uninstall_printer_cmd = if plan.is_printer_installed {
        run_self(plan.src_exe, "--uninstall-remote-printer")
    } else {
        String::new()
    };
    let install_printer_cmd = if plan.is_printer_installed {
        run_self(plan.src_exe, "--install-remote-printer")
    } else {
        String::new()
    };
    let copy_exe = match copy_exe_cmd(plan.src_parent, plan.path, plan.origin_exe, plan.broker_exe) {
        Ok(cmd) => cmd,
        Err(e) => {
            return Err(e);
        },
    };
    let sleep = if plan.debug {
        "timeout 300"
    } else {
        ""
    };
    proof {
        reveal_strlit("");
        assert(""@ =~= Seq::<char>::empty());
    }
    Ok(
        update_script(
            plan.app_name,
            filter.as_str(),
            reg_cmd.as_str(),
            copy_exe.as_str(),
            restore_service_cmd.as_str(),
            uninstall_printer_cmd.as_str(),
            install_printer_cmd.as_str(),
            sleep,
        ),
    )
}

/// The sessions of `sessions` other than session 0, in their order.
pub open spec fn interactive(sessions: Seq<u32>) -> Seq<u32>
    decreases sessions.len(),
{
    if sessions.len() == 0 {
        Seq::<u32>::empty()
    } else if sessions.last() != 0 {
        interactive(sessions.drop_last()).push(sessions.last())
    } else {
        interactive(sessions.drop_last())
    }
}

/// The sessions in which a window of the program is brought back after an
/// update: every session one was seen in but session 0.
pub fn sessions_to_restore(sessions: &Vec<u32>) -> (r: Vec<u32>)
    ensures
        r@ == interactive(sessions@),
{
    let mut r: Vec<u32> = Vec::new();
    let mut i: usize = 0;
    assert(sessions@.take(0) =~= Seq::<u32>::empty());
    while i < sessions.len()
        invariant
            i <= sessions.len(),
            r@ == interactive(sessions@.take(i as int)),
        decreases sessions.len() - i,
    {
        proof {
            assert(sessions@.take(i + 1).drop_last() =~= sessions@.take(i as int));
        }
        if sessions[i] != 0 {
            r.push(sessions[i]);
        }
        i += 1;
    }
    assert(sessions@.take(sessions.len() as int) =~= sessions@);
    r
}

/// Builds the commands that stop and remove the service, sparing the
/// process `pid`.
pub fn uninstall_service(app_name: &str, broker_exe: &str, pid: u32) -> (r: String)
    ensures
        r@ == uninstall_service_script_text(
            app_name@,
            broker_exe@,
            except_pid_text(decimal(pid as nat)),
        ),
{
    let filter = filter_for(false, pid);
    uninstall_service_script(app_name, broker_exe, filter.as_str())
}

/// Builds the commands that set up the service, sparing the process `pid`.
pub fn install_service(
    app_name: &str,
    exe: &str,
    tmp_path: &str,
    tray_shortcut: &str,
    config_path: &str,
    outgoing_only: bool,
    stop_service: bool,
    pid: u32,
) -> (r: String)
    ensures
        r@ == install_service_script_text(
            app_name@,
            except_pid_text(decimal(pid as nat)),
            tray_shortcut@,
            tmp_path@,
            import_config_text(outgoing_only, app_name@, exe@, config_path@),
            create_service_text(outgoing_only, stop_service, app_name@, exe@),
        ),
{
    let filter = filter_for(false, pid);
    let import_config = get_import_config(outgoing_only, app_name, exe, config_path);
    let create_service = get_create_service(outgoing_only, stop_service, app_name, exe);
    install_service_script(
        app_name,
        filter.as_str(),
        tray_shortcut,
        tmp_path,
        import_config.as_str(),
        create_service.as_str(),
    )
}

/// Builds the command that records a changed option of the installation.
/// Nothing is recorded by a program that is not installed or is not the server.
pub fn update_install_option(installed: bool, server: bool, app_name: &str, k: &str, v: &str) -> (r:
    Option<String>)
    ensures
        r is Some <==> installed && server,
        r matches Some(cmd) ==> cmd@ == update_option_line_text(lowercase(app_name@), k@, v@),
{
    if !installed || !server {
        return None;
    }
    let ext = to_lowercase(app_name);
    Some(update_option_line(ext.as_str(), k, v))
}

/// Builds the command that updates the program from an installer package,
/// without a window and without starting the tray icon if `quiet`.
pub fn update_me_msi(msi: &str, quiet: bool) -> (r: String)
    ensures
        r@ == msi_line_text(
            msi@,
            if quiet {
                "/qn LAUNCH_TRAY_APP=N"@
            } else {
                Seq::<char>::empty()
            },
        ),
{
    proof {
        reveal_strlit("");
        assert(""@ =~= Seq::<char>::empty());
    }
    msi_line(
        msi,
        if quiet {
            "/qn LAUNCH_TRAY_APP=N"
        } else {
            ""
        },
    )
}

} // verus!
