use probationdesk::installer::{
    after_install_script,
    before_uninstall_script,
    classes_subkey,
    cleanup_lines,
    copy_exe_cmd,
    copy_exe_lines,
    copy_raw_cmd,
    create_service_script,
    create_shortcut,
    desktop_shortcut_line,
    dotted_version,
    except_pid,
    get_after_install,
    get_before_uninstall,
    get_create_service,
    get_import_config,
    get_tray_shortcut,
    get_uninstall,
    get_uninstall_amyuni_idd,
    import_config_script,
    install_me,
    install_script,
    install_service,
    install_service_script,
    install_shortcuts,
    install_target,
    msi_line,
    reg_option_line,
    remove_tray_line,
    run_self,
    sc_start_line,
    sessions_to_restore,
    shortcut_script,
    start_menu_lines,
    tray_lines,
    uninstall_script,
    uninstall_service,
    uninstall_service_script,
    uninstall_shortcut_script,
    update_install_option,
    update_me,
    update_me_msi,
    update_option_line,
    update_reg_lines,
    update_script,
    version_parts,
    xcopy_line,
    InstallError,
    InstallPlan,
    UpdatePlan,
};

fn expected_xcopy_line(src_parent: &str, path: &str) -> String {
    format!(
        "XCOPY \"{src_parent}\" \"{path}\" /Y /E /H /C /I /K /R /Z"
    )
}

fn expected_copy_exe_lines(main_exe: &str, origin_exe: &str, path: &str, broker_exe: &str) -> String {
    format!(
        "\n        {main_exe}\n        copy /Y \"{origin_exe}\" \"{path}\\{broker_exe}\"\n        "
    )
}

fn expected_reg_option_line(ext: &str, name: &str, value: &str) -> String {
    format!(
        "reg add HKEY_CLASSES_ROOT\\.{ext} /f /v {name} /t REG_SZ /d \"{value}\""
    )
}

fn expected_after_install_script(ext: &str, desktop_shortcuts: &str, start_menu_shortcuts: &str, reg_printer: &str, exe: &str, app_name: &str, create_service: &str) -> String {
    format!(
        "\n    chcp 65001\n    reg add HKEY_CLASSES_ROOT\\.{ext} /f\n    {desktop_shortcuts}\n    {start_menu_shortcuts}\n    {reg_printer}\n    reg add HKEY_CLASSES_ROOT\\.{ext}\\DefaultIcon /f\n    reg add HKEY_CLASSES_ROOT\\.{ext}\\DefaultIcon /f /ve /t REG_SZ  /d \"\\\"{exe}\\\",0\"\n    reg add HKEY_CLASSES_ROOT\\.{ext}\\shell /f\n    reg add HKEY_CLASSES_ROOT\\.{ext}\\shell\\open /f\n    reg add HKEY_CLASSES_ROOT\\.{ext}\\shell\\open\\command /f\n    reg add HKEY_CLASSES_ROOT\\.{ext}\\shell\\open\\command /f /ve /t REG_SZ /d \"\\\"{exe}\\\" --play \\\"%%1\\\"\"\n    reg add HKEY_CLASSES_ROOT\\{ext} /f\n    reg add HKEY_CLASSES_ROOT\\{ext} /f /v \"URL Protocol\" /t REG_SZ /d \"\"\n    reg add HKEY_CLASSES_ROOT\\{ext}\\shell /f\n    reg add HKEY_CLASSES_ROOT\\{ext}\\shell\\open /f\n    reg add HKEY_CLASSES_ROOT\\{ext}\\shell\\open\\command /f\n    reg add HKEY_CLASSES_ROOT\\{ext}\\shell\\open\\command /f /ve /t REG_SZ /d \"\\\"{exe}\\\" \\\"%%1\\\"\"\n    netsh advfirewall firewall add rule name=\"{app_name} Service\" dir=out action=allow program=\"{exe}\" enable=yes\n    netsh advfirewall firewall add rule name=\"{app_name} Service\" dir=in action=allow program=\"{exe}\" enable=yes\n    {create_service}\n    reg add HKEY_LOCAL_MACHINE\\Software\\Microsoft\\Windows\\CurrentVersion\\Policies\\System /f /v SoftwareSASGeneration /t REG_DWORD /d 1\n    "
    )
}

fn expected_shortcut_script(tmp_path: &str, app_name: &str, exe: &str) -> String {
    format!(
        "\nSet oWS = WScript.CreateObject(\"WScript.Shell\")\nsLinkFile = \"{tmp_path}\\{app_name}.lnk\"\n\nSet oLink = oWS.CreateShortcut(sLinkFile)\n    oLink.TargetPath = \"{exe}\"\noLink.Save\n        "
    )
}

fn expected_uninstall_shortcut_script(tmp_path: &str, app_name: &str, exe: &str) -> String {
    format!(
        "\nSet oWS = WScript.CreateObject(\"WScript.Shell\")\nsLinkFile = \"{tmp_path}\\Uninstall {app_name}.lnk\"\nSet oLink = oWS.CreateShortcut(sLinkFile)\n    oLink.TargetPath = \"{exe}\"\n    oLink.Arguments = \"--uninstall\"\n    oLink.IconLocation = \"msiexec.exe\"\noLink.Save\n        "
    )
}

fn expected_desktop_shortcut_line(tmp_path: &str, app_name: &str) -> String {
    format!(
        "copy /Y \"{tmp_path}\\{app_name}.lnk\" \"%PUBLIC%\\Desktop\\\""
    )
}

fn expected_start_menu_lines(shortcuts: &str, start_menu: &str, tmp_path: &str, app_name: &str) -> String {
    format!(
        "{shortcuts}\nmd \"{start_menu}\"\ncopy /Y \"{tmp_path}\\{app_name}.lnk\" \"{start_menu}\\\"\ncopy /Y \"{tmp_path}\\Uninstall {app_name}.lnk\" \"{start_menu}\\\"\n     "
    )
}

fn expected_cleanup_lines(mk_shortcut: &str, uninstall_shortcut: &str, tray_shortcut: &str, tmp_path: &str, app_name: &str) -> String {
    format!(
        "\nif exist \"{mk_shortcut}\" del /f /q \"{mk_shortcut}\"\nif exist \"{uninstall_shortcut}\" del /f /q \"{uninstall_shortcut}\"\nif exist \"{tray_shortcut}\" del /f /q \"{tray_shortcut}\"\nif exist \"{tmp_path}\\{app_name}.lnk\" del /f /q \"{tmp_path}\\{app_name}.lnk\"\nif exist \"{tmp_path}\\Uninstall {app_name}.lnk\" del /f /q \"{tmp_path}\\Uninstall {app_name}.lnk\"\nif exist \"{tmp_path}\\{app_name} Tray.lnk\" del /f /q \"{tmp_path}\\{app_name} Tray.lnk\"\n        "
    )
}

fn expected_tray_lines(tray_shortcut: &str, tmp_path: &str, app_name: &str) -> String {
    format!(
        "\ncscript \"{tray_shortcut}\"\ncopy /Y \"{tmp_path}\\{app_name} Tray.lnk\" \"%PROGRAMDATA%\\Microsoft\\Windows\\Start Menu\\Programs\\Startup\\\"\n"
    )
}

fn expected_install_script(uninstall_str: &str, path: &str, copy_exe: &str, subkey: &str, exe: &str, app_name: &str, version: &str, build_date: &str, version_major: &str, version_minor: &str, version_build: &str, size: &str, mk_shortcut: &str, uninstall_shortcut: &str, tray_shortcuts: &str, shortcuts: &str, tmp_path: &str, dels: &str, import_config: &str, after_install: &str, install_remote_printer: &str, sleep: &str) -> String {
    format!(
        "\n{uninstall_str}\nchcp 65001\nmd \"{path}\"\n{copy_exe}\nreg add {subkey} /f\nreg add {subkey} /f /v DisplayIcon /t REG_SZ /d \"{exe}\"\nreg add {subkey} /f /v DisplayName /t REG_SZ /d \"{app_name}\"\nreg add {subkey} /f /v DisplayVersion /t REG_SZ /d \"{version}\"\nreg add {subkey} /f /v Version /t REG_SZ /d \"{version}\"\nreg add {subkey} /f /v BuildDate /t REG_SZ /d \"{build_date}\"\nreg add {subkey} /f /v InstallLocation /t REG_SZ /d \"{path}\"\nreg add {subkey} /f /v Publisher /t REG_SZ /d \"{app_name}\"\nreg add {subkey} /f /v VersionMajor /t REG_DWORD /d {version_major}\nreg add {subkey} /f /v VersionMinor /t REG_DWORD /d {version_minor}\nreg add {subkey} /f /v VersionBuild /t REG_DWORD /d {version_build}\nreg add {subkey} /f /v UninstallString /t REG_SZ /d \"\\\"{exe}\\\" --uninstall\"\nreg add {subkey} /f /v EstimatedSize /t REG_DWORD /d {size}\nreg add {subkey} /f /v WindowsInstaller /t REG_DWORD /d 0\ncscript \"{mk_shortcut}\"\ncscript \"{uninstall_shortcut}\"\n{tray_shortcuts}\n{shortcuts}\ncopy /Y \"{tmp_path}\\Uninstall {app_name}.lnk\" \"{path}\\\"\n{dels}\n{import_config}\n{after_install}\n{install_remote_printer}\n{sleep}\n    "
    )
}

fn expected_except_pid(pid: &str) -> String {
    format!(
        " /FI \"PID ne {pid}\""
    )
}

fn expected_before_uninstall_script(app_name: &str, broker_exe: &str, filter: &str, ext: &str) -> String {
    format!(
        "\n    chcp 65001\n    sc stop {app_name}\n    sc delete {app_name}\n    taskkill /F /IM {broker_exe}\n    taskkill /F /IM {app_name}.exe{filter}\n    reg delete HKEY_CLASSES_ROOT\\.{ext} /f\n    reg delete HKEY_CLASSES_ROOT\\{ext} /f\n    netsh advfirewall firewall delete rule name=\"{app_name} Service\"\n    "
    )
}

fn expected_uninstall_script(before_uninstall: &str, uninstall_printer_cmd: &str, uninstall_cert_cmd: &str, subkey: &str, uninstall_amyuni_idd: &str, path: &str, start_menu: &str, app_name: &str) -> String {
    format!(
        "\n    {before_uninstall}\n    {uninstall_printer_cmd}\n    {uninstall_cert_cmd}\n    reg delete {subkey} /f\n    {uninstall_amyuni_idd}\n    if exist \"{path}\" rd /s /q \"{path}\"\n    if exist \"{start_menu}\" rd /s /q \"{start_menu}\"\n    if exist \"%PUBLIC%\\Desktop\\{app_name}.lnk\" del /f /q \"%PUBLIC%\\Desktop\\{app_name}.lnk\"\n    if exist \"%PROGRAMDATA%\\Microsoft\\Windows\\Start Menu\\Programs\\Startup\\{app_name} Tray.lnk\" del /f /q \"%PROGRAMDATA%\\Microsoft\\Windows\\Start Menu\\Programs\\Startup\\{app_name} Tray.lnk\"\n    "
    )
}

fn expected_update_option_line(ext: &str, k: &str, v: &str) -> String {
    format!(
        "chcp 65001 && reg add HKEY_CLASSES_ROOT\\.{ext} /f /v {k} /t REG_SZ /d \"{v}\""
    )
}

fn expected_create_shortcut(id: &str, exe: &str) -> String {
    format!(
        "\nSet oWS = WScript.CreateObject(\"WScript.Shell\")\nstrDesktop = oWS.SpecialFolders(\"Desktop\")\nSet objFSO = CreateObject(\"Scripting.FileSystemObject\")\nsLinkFile = objFSO.BuildPath(strDesktop, \"{id}.lnk\")\nSet oLink = oWS.CreateShortcut(sLinkFile)\n    oLink.TargetPath = \"{exe}\"\n    oLink.Arguments = \"--connect {id}\"\noLink.Save\n        "
    )
}

fn expected_uninstall_service_script(app_name: &str, broker_exe: &str, filter: &str) -> String {
    format!(
        "\n    chcp 65001\n    sc stop {app_name}\n    sc delete {app_name}\n    if exist \"%PROGRAMDATA%\\Microsoft\\Windows\\Start Menu\\Programs\\Startup\\{app_name} Tray.lnk\" del /f /q \"%PROGRAMDATA%\\Microsoft\\Windows\\Start Menu\\Programs\\Startup\\{app_name} Tray.lnk\"\n    taskkill /F /IM {broker_exe}\n    taskkill /F /IM {app_name}.exe{filter}\n    "
    )
}

fn expected_install_service_script(app_name: &str, filter: &str, tray_shortcut: &str, tmp_path: &str, import_config: &str, create_service: &str) -> String {
    format!(
        "\nchcp 65001\ntaskkill /F /IM {app_name}.exe{filter}\ncscript \"{tray_shortcut}\"\ncopy /Y \"{tmp_path}\\{app_name} Tray.lnk\" \"%PROGRAMDATA%\\Microsoft\\Windows\\Start Menu\\Programs\\Startup\\\"\n{import_config}\n{create_service}\nif exist \"{tray_shortcut}\" del /f /q \"{tray_shortcut}\"\n    "
    )
}

fn expected_update_reg_lines(subkey: &str, exe: &str, version: &str, build_date: &str, version_major: &str, version_minor: &str, version_build: &str, size: &str) -> String {
    format!(
        "\nreg add {subkey} /f /v DisplayIcon /t REG_SZ /d \"{exe}\"\nreg add {subkey} /f /v DisplayVersion /t REG_SZ /d \"{version}\"\nreg add {subkey} /f /v Version /t REG_SZ /d \"{version}\"\nreg add {subkey} /f /v BuildDate /t REG_SZ /d \"{build_date}\"\nreg add {subkey} /f /v VersionMajor /t REG_DWORD /d {version_major}\nreg add {subkey} /f /v VersionMinor /t REG_DWORD /d {version_minor}\nreg add {subkey} /f /v VersionBuild /t REG_DWORD /d {version_build}\nreg add {subkey} /f /v EstimatedSize /t REG_DWORD /d {size}\n    "
    )
}

fn expected_sc_start_line(app_name: &str) -> String {
    format!(
        "sc start {app_name}"
    )
}

fn expected_update_script(app_name: &str, filter: &str, reg_cmd: &str, copy_exe: &str, restore_service_cmd: &str, uninstall_printer_cmd: &str, install_printer_cmd: &str, sleep: &str) -> String {
    format!(
        "\nchcp 65001\nsc stop {app_name}\ntaskkill /F /IM {app_name}.exe{filter}\n{reg_cmd}\n{copy_exe}\n{restore_service_cmd}\n{uninstall_printer_cmd}\n{install_printer_cmd}\n{sleep}\n    "
    )
}

fn expected_msi_line(msi: &str, options: &str) -> String {
    format!(
        "chcp 65001 && msiexec /i {msi} {options}"
    )
}

fn expected_get_tray_shortcut(tmp_path: &str, app_name: &str, exe: &str) -> String {
    format!(
        "\nSet oWS = WScript.CreateObject(\"WScript.Shell\")\nsLinkFile = \"{tmp_path}\\{app_name} Tray.lnk\"\n\nSet oLink = oWS.CreateShortcut(sLinkFile)\n    oLink.TargetPath = \"{exe}\"\n    oLink.Arguments = \"--tray\"\noLink.Save\n        "
    )
}

fn expected_import_config_script(app_name: &str, exe: &str, config_path: &str) -> String {
    format!(
        "\nsc stop {app_name}\nsc delete {app_name}\nsc create {app_name} binpath= \"\\\"{exe}\\\" --import-config \\\"{config_path}\\\"\" start= auto DisplayName= \"{app_name} Service\"\nsc start {app_name}\nsc stop {app_name}\nsc delete {app_name}\n"
    )
}

fn expected_remove_tray_line(app_name: &str) -> String {
    format!(
        "\nif exist \"%PROGRAMDATA%\\Microsoft\\Windows\\Start Menu\\Programs\\Startup\\{app_name} Tray.lnk\" del /f /q \"%PROGRAMDATA%\\Microsoft\\Windows\\Start Menu\\Programs\\Startup\\{app_name} Tray.lnk\"\n"
    )
}

fn expected_create_service_script(app_name: &str, exe: &str) -> String {
    format!(
        "\nsc create {app_name} binpath= \"\\\"{exe}\\\" --service\" start= auto DisplayName= \"{app_name} Service\"\nsc start {app_name}\n"
    )
}

#[test]
fn the_text_of_xcopy_line_has_every_place_filled() {
    assert_eq!(xcopy_line("C:\\Users\\ann\\Downloads", "D:\\Apps\\Desk"), expected_xcopy_line("C:\\Users\\ann\\Downloads", "D:\\Apps\\Desk"));
}

#[test]
fn the_text_of_copy_exe_lines_has_every_place_filled() {
    assert_eq!(copy_exe_lines("XCOPY a b", "C:\\Windows\\System32\\RuntimeBroker.exe", "D:\\Apps\\Desk", "RuntimeBroker_desk.exe"), expected_copy_exe_lines("XCOPY a b", "C:\\Windows\\System32\\RuntimeBroker.exe", "D:\\Apps\\Desk", "RuntimeBroker_desk.exe"));
}

#[test]
fn the_text_of_reg_option_line_has_every_place_filled() {
    assert_eq!(reg_option_line("desk", "PRINTER", "1"), expected_reg_option_line("desk", "PRINTER", "1"));
}

#[test]
fn the_text_of_after_install_script_has_every_place_filled() {
    assert_eq!(after_install_script("desk", "reg add d", "reg add s", "reg add p", "D:\\Apps\\Desk\\Desk.exe", "Desk", "sc create Desk"), expected_after_install_script("desk", "reg add d", "reg add s", "reg add p", "D:\\Apps\\Desk\\Desk.exe", "Desk", "sc create Desk"));
}

#[test]
fn the_text_of_shortcut_script_has_every_place_filled() {
    assert_eq!(shortcut_script("C:\\Temp", "Desk", "D:\\Apps\\Desk\\Desk.exe"), expected_shortcut_script("C:\\Temp", "Desk", "D:\\Apps\\Desk\\Desk.exe"));
}

#[test]
fn the_text_of_uninstall_shortcut_script_has_every_place_filled() {
    assert_eq!(uninstall_shortcut_script("C:\\Temp", "Desk", "D:\\Apps\\Desk\\Desk.exe"), expected_uninstall_shortcut_script("C:\\Temp", "Desk", "D:\\Apps\\Desk\\Desk.exe"));
}

#[test]
fn the_text_of_desktop_shortcut_line_has_every_place_filled() {
    assert_eq!(desktop_shortcut_line("C:\\Temp", "Desk"), expected_desktop_shortcut_line("C:\\Temp", "Desk"));
}

#[test]
fn the_text_of_start_menu_lines_has_every_place_filled() {
    assert_eq!(start_menu_lines("copy x y", "%ProgramData%\\Menu\\Desk", "C:\\Temp", "Desk"), expected_start_menu_lines("copy x y", "%ProgramData%\\Menu\\Desk", "C:\\Temp", "Desk"));
}

#[test]
fn the_text_of_cleanup_lines_has_every_place_filled() {
    assert_eq!(cleanup_lines("C:\\Temp\\Desk_mk_shortcut.vbs", "C:\\Temp\\Desk_uninstall_shortcut.vbs", "C:\\Temp\\Desk_tray_shortcut.vbs", "C:\\Temp", "Desk"), expected_cleanup_lines("C:\\Temp\\Desk_mk_shortcut.vbs", "C:\\Temp\\Desk_uninstall_shortcut.vbs", "C:\\Temp\\Desk_tray_shortcut.vbs", "C:\\Temp", "Desk"));
}

#[test]
fn the_text_of_tray_lines_has_every_place_filled() {
    assert_eq!(tray_lines("C:\\Temp\\Desk_tray_shortcut.vbs", "C:\\Temp", "Desk"), expected_tray_lines("C:\\Temp\\Desk_tray_shortcut.vbs", "C:\\Temp", "Desk"));
}

#[test]
fn the_text_of_install_script_has_every_place_filled() {
    assert_eq!(install_script("rem nothing", "D:\\Apps\\Desk", "XCOPY c d", "HKEY_LOCAL_MACHINE\\Software\\Desk", "D:\\Apps\\Desk\\Desk.exe", "Desk", "1.4.2", "2025-01-01 10:00", "1", "4", "2", "20480", "C:\\Temp\\Desk_mk_shortcut.vbs", "C:\\Temp\\Desk_uninstall_shortcut.vbs", "cscript t", "copy x y", "C:\\Temp", "del x", "sc import", "reg after", "printer on", "timeout 300"), expected_install_script("rem nothing", "D:\\Apps\\Desk", "XCOPY c d", "HKEY_LOCAL_MACHINE\\Software\\Desk", "D:\\Apps\\Desk\\Desk.exe", "Desk", "1.4.2", "2025-01-01 10:00", "1", "4", "2", "20480", "C:\\Temp\\Desk_mk_shortcut.vbs", "C:\\Temp\\Desk_uninstall_shortcut.vbs", "cscript t", "copy x y", "C:\\Temp", "del x", "sc import", "reg after", "printer on", "timeout 300"));
}

#[test]
fn the_text_of_except_pid_has_every_place_filled() {
    assert_eq!(except_pid("4711"), expected_except_pid("4711"));
}

#[test]
fn the_text_of_before_uninstall_script_has_every_place_filled() {
    assert_eq!(before_uninstall_script("Desk", "RuntimeBroker_desk.exe", " /FI \"PID ne 4711\"", "desk"), expected_before_uninstall_script("Desk", "RuntimeBroker_desk.exe", " /FI \"PID ne 4711\"", "desk"));
}

#[test]
fn the_text_of_uninstall_script_has_every_place_filled() {
    assert_eq!(uninstall_script("sc stop Desk", "printer off", "cert off", "HKEY_LOCAL_MACHINE\\Software\\Desk", "idd off", "D:\\Apps\\Desk", "%ProgramData%\\Menu\\Desk", "Desk"), expected_uninstall_script("sc stop Desk", "printer off", "cert off", "HKEY_LOCAL_MACHINE\\Software\\Desk", "idd off", "D:\\Apps\\Desk", "%ProgramData%\\Menu\\Desk", "Desk"));
}

#[test]
fn the_text_of_update_option_line_has_every_place_filled() {
    assert_eq!(update_option_line("desk", "PRINTER", "0"), expected_update_option_line("desk", "PRINTER", "0"));
}

#[test]
fn the_text_of_create_shortcut_has_every_place_filled() {
    assert_eq!(create_shortcut("123456789", "D:\\Apps\\Desk\\Desk.exe"), expected_create_shortcut("123456789", "D:\\Apps\\Desk\\Desk.exe"));
}

#[test]
fn the_text_of_uninstall_service_script_has_every_place_filled() {
    assert_eq!(uninstall_service_script("Desk", "RuntimeBroker_desk.exe", " /FI \"PID ne 4711\""), expected_uninstall_service_script("Desk", "RuntimeBroker_desk.exe", " /FI \"PID ne 4711\""));
}

#[test]
fn the_text_of_install_service_script_has_every_place_filled() {
    assert_eq!(install_service_script("Desk", " /FI \"PID ne 4711\"", "C:\\Temp\\Desk_tray_shortcut.vbs", "C:\\Temp", "sc import", "sc create Desk"), expected_install_service_script("Desk", " /FI \"PID ne 4711\"", "C:\\Temp\\Desk_tray_shortcut.vbs", "C:\\Temp", "sc import", "sc create Desk"));
}

#[test]
fn the_text_of_update_reg_lines_has_every_place_filled() {
    assert_eq!(update_reg_lines("HKEY_LOCAL_MACHINE\\Software\\Desk", "D:\\Apps\\Desk\\Desk.exe", "1.4.2", "2025-01-01 10:00", "1", "4", "2", "20480"), expected_update_reg_lines("HKEY_LOCAL_MACHINE\\Software\\Desk", "D:\\Apps\\Desk\\Desk.exe", "1.4.2", "2025-01-01 10:00", "1", "4", "2", "20480"));
}

#[test]
fn the_text_of_sc_start_line_has_every_place_filled() {
    assert_eq!(sc_start_line("Desk"), expected_sc_start_line("Desk"));
}

#[test]
fn the_text_of_update_script_has_every_place_filled() {
    assert_eq!(update_script("Desk", " /FI \"PID ne 4711\"", "reg add r", "XCOPY c d", "sc start Desk", "printer off", "printer on", "timeout 300"), expected_update_script("Desk", " /FI \"PID ne 4711\"", "reg add r", "XCOPY c d", "sc start Desk", "printer off", "printer on", "timeout 300"));
}

#[test]
fn the_text_of_msi_line_has_every_place_filled() {
    assert_eq!(msi_line("C:\\Temp\\desk.msi", "/qn"), expected_msi_line("C:\\Temp\\desk.msi", "/qn"));
}

#[test]
fn the_text_of_get_tray_shortcut_has_every_place_filled() {
    assert_eq!(get_tray_shortcut("C:\\Temp", "Desk", "D:\\Apps\\Desk\\Desk.exe"), expected_get_tray_shortcut("C:\\Temp", "Desk", "D:\\Apps\\Desk\\Desk.exe"));
}

#[test]
fn the_text_of_import_config_script_has_every_place_filled() {
    assert_eq!(import_config_script("Desk", "D:\\Apps\\Desk\\Desk.exe", "C:\\Users\\ann\\AppData\\Desk.toml"), expected_import_config_script("Desk", "D:\\Apps\\Desk\\Desk.exe", "C:\\Users\\ann\\AppData\\Desk.toml"));
}

#[test]
fn the_text_of_remove_tray_line_has_every_place_filled() {
    assert_eq!(remove_tray_line("Desk"), expected_remove_tray_line("Desk"));
}

#[test]
fn the_text_of_create_service_script_has_every_place_filled() {
    assert_eq!(create_service_script("Desk", "D:\\Apps\\Desk\\Desk.exe"), expected_create_service_script("Desk", "D:\\Apps\\Desk\\Desk.exe"));
}

#[test]
fn a_program_runs_with_one_flag() {
    assert_eq!(run_self("C:\\a b.exe", "--uninstall-cert"), "\"C:\\a b.exe\" --uninstall-cert");
}

#[test]
fn the_program_is_copied_from_the_directory_it_lies_in() {
    assert_eq!(
        copy_raw_cmd(Some("C:\\Downloads"), "D:\\Apps\\Desk"),
        Ok(expected_xcopy_line("C:\\Downloads", "D:\\Apps\\Desk"))
    );
    assert_eq!(copy_raw_cmd(None, "D:\\Apps\\Desk"), Err(InstallError::NoParent));
    assert_eq!(
        copy_exe_cmd(Some("C:\\Downloads"), "D:\\Apps\\Desk", "C:\\W\\Broker.exe", "Broker_desk.exe"),
        Ok(expected_copy_exe_lines(
            &expected_xcopy_line("C:\\Downloads", "D:\\Apps\\Desk"),
            "C:\\W\\Broker.exe",
            "D:\\Apps\\Desk",
            "Broker_desk.exe"
        ))
    );
    assert_eq!(copy_exe_cmd(None, "D:\\Apps\\Desk", "o", "b"), Err(InstallError::NoParent));
}

#[test]
fn the_service_is_created_unless_it_is_to_stay_stopped() {
    assert_eq!(get_create_service(true, false, "Desk", "D:\\Desk.exe"), "");
    assert_eq!(get_create_service(true, true, "Desk", "D:\\Desk.exe"), "");
    assert_eq!(get_create_service(false, true, "Desk", "D:\\Desk.exe"), expected_remove_tray_line("Desk"));
    assert_eq!(
        get_create_service(false, false, "Desk", "D:\\Desk.exe"),
        expected_create_service_script("Desk", "D:\\Desk.exe")
    );
    assert_eq!(
        get_create_service(false, false, "Desk", "D:\\Desk.exe"),
        "\nsc create Desk binpath= \"\\\"D:\\Desk.exe\\\" --service\" start= auto DisplayName= \"Desk Service\"\nsc start Desk\n"
    );
}

#[test]
fn the_configuration_is_imported_unless_the_program_only_connects_out() {
    assert_eq!(get_import_config(true, "Desk", "D:\\Desk.exe", "C:\\Desk.toml"), "");
    assert_eq!(
        get_import_config(false, "Desk", "D:\\Desk.exe", "C:\\Desk.toml"),
        expected_import_config_script("Desk", "D:\\Desk.exe", "C:\\Desk.toml")
    );
}

fn expected_after_install(
    exe: &str,
    app_name: &str,
    start: Option<&str>,
    desktop: Option<&str>,
    printer: Option<&str>,
    create_service: &str,
) -> String {
    let ext = app_name.to_lowercase();
    let line = |name: &str, value: Option<&str>| {
        value.map(|v| expected_reg_option_line(&ext, name, v)).unwrap_or_default()
    };
    expected_after_install_script(
        &ext,
        &line("DESKTOPSHORTCUTS", desktop),
        &line("STARTMENUSHORTCUTS", start),
        &line("PRINTER", printer),
        exe,
        app_name,
        create_service,
    )
}

#[test]
fn the_file_type_is_named_after_the_program_in_lowercase() {
    let create = get_create_service(false, false, "DeskTop", "D:\\Desk.exe");
    assert_eq!(
        get_after_install("D:\\Desk.exe", "DeskTop", Some("1"), None, Some("0"), false, false),
        expected_after_install("D:\\Desk.exe", "DeskTop", Some("1"), None, Some("0"), &create)
    );
    let text = get_after_install("D:\\Desk.exe", "DeskTop", None, Some("1"), None, true, false);
    assert_eq!(text, expected_after_install("D:\\Desk.exe", "DeskTop", None, Some("1"), None, ""));
    assert!(text.contains("reg add HKEY_CLASSES_ROOT\\.desktop /f /v DESKTOPSHORTCUTS /t REG_SZ /d \"1\""));
    assert!(text.contains("reg add HKEY_CLASSES_ROOT\\desktop\\shell\\open\\command /f /ve /t REG_SZ /d \"\\\"D:\\Desk.exe\\\" \\\"%%1\\\"\""));
    assert!(!text.contains("STARTMENUSHORTCUTS"));
    assert_eq!(classes_subkey("D:\\Desk.exe"), "Software\\Classes\\D:\\Desk.exe");
}

#[test]
fn a_removal_spares_the_running_process_unless_it_is_to_end_itself() {
    assert_eq!(
        get_before_uninstall(true, "Desk", "Broker_desk.exe", 4711),
        expected_before_uninstall_script("Desk", "Broker_desk.exe", "", "desk")
    );
    assert_eq!(
        get_before_uninstall(false, "Desk", "Broker_desk.exe", 4711),
        expected_before_uninstall_script("Desk", "Broker_desk.exe", " /FI \"PID ne 4711\"", "desk")
    );
    assert!(get_before_uninstall(false, "Desk", "B.exe", 0).contains("taskkill /F /IM Desk.exe /FI \"PID ne 0\"\n"));
}

#[test]
fn the_virtual_display_is_removed_by_the_program_itself() {
    assert_eq!(get_uninstall_amyuni_idd(Some("C:\\Desk.exe")), "\"C:\\Desk.exe\" --uninstall-amyuni-idd");
    assert_eq!(get_uninstall_amyuni_idd(Some("")), "\"\" --uninstall-amyuni-idd");
    assert_eq!(get_uninstall_amyuni_idd(None), "");
}

#[test]
fn a_package_is_removed_the_way_the_registry_records() {
    let recorded = "MsiExec.exe /X{1234}";
    assert_eq!(
        get_uninstall(true, true, recorded, Some("C:\\Desk.exe"), Some("C:\\Desk.exe"), "K", "P", "S", "Desk", "B.exe", 1),
        recorded
    );
}

#[test]
fn a_removal_takes_back_the_key_the_directory_and_the_shortcuts() {
    let text = get_uninstall(
        false,
        true,
        "\"D:\\Desk\\Desk.exe\" --uninstall",
        Some("C:\\Desk.exe"),
        Some("C:\\Desk.exe"),
        "HKLM\\Desk",
        "D:\\Desk",
        "%ProgramData%\\Menu\\Desk",
        "Desk",
        "B.exe",
        77,
    );
    assert_eq!(
        text,
        expected_uninstall_script(
            &get_before_uninstall(false, "Desk", "B.exe", 77),
            "\"C:\\Desk.exe\" --uninstall-remote-printer",
            "\"C:\\Desk.exe\" --uninstall-cert",
            "HKLM\\Desk",
            "\"C:\\Desk.exe\" --uninstall-amyuni-idd",
            "D:\\Desk",
            "%ProgramData%\\Menu\\Desk",
            "Desk",
        )
    );
    let bare = get_uninstall(true, false, "", None, Some(""), "K", "P", "S", "Desk", "B.exe", 77);
    assert_eq!(
        bare,
        expected_uninstall_script(
            &get_before_uninstall(true, "Desk", "B.exe", 77),
            "",
            "",
            "K",
            "\"\" --uninstall-amyuni-idd",
            "P",
            "S",
            "Desk",
        )
    );
    let without_printer = get_uninstall(true, false, "", Some("x.exe"), None, "K", "P", "S", "Desk", "B.exe", 77);
    assert!(without_printer.contains("\"x.exe\" --uninstall-cert"));
    assert!(!without_printer.contains("--uninstall-remote-printer"));
    assert!(!without_printer.contains("--uninstall-amyuni-idd"));
}

#[test]
fn the_directory_asked_for_takes_the_place_of_the_default() {
    let default_path = "C:\\Program Files\\Desk";
    let default_exe = "C:\\Program Files\\Desk\\Desk.exe";
    assert_eq!(
        install_target("", default_path, default_exe),
        (default_path.to_string(), default_exe.to_string())
    );
    assert_eq!(
        install_target("\\\\", default_path, default_exe),
        (default_path.to_string(), default_exe.to_string())
    );
    assert_eq!(
        install_target("D:\\Apps\\Desk\\", default_path, default_exe),
        ("D:\\Apps\\Desk".to_string(), "D:\\Apps\\Desk\\Desk.exe".to_string())
    );
    assert_eq!(
        install_target("D:\\x", "", "ab"),
        ("D:\\x".to_string(), "ab".replace("", "D:\\x"))
    );
}

#[test]
fn a_version_has_three_numbers() {
    let parts = |v: &str| {
        let (a, b, c) = version_parts(v);
        format!("{}|{}|{}", a, b, c)
    };
    assert_eq!(parts("1.4.2"), "1|4|2");
    assert_eq!(parts("1.4.2-2.9"), "1|4|2-2");
    assert_eq!(parts("1.4"), "1|4|0");
    assert_eq!(parts("7"), "7|0|0");
    assert_eq!(parts(""), "|0|0");
    assert_eq!(dotted_version("1.4.2-2"), "1.4.2.2");
    assert_eq!(dotted_version("1-2-3"), "1.2.3");
}

#[test]
fn shortcuts_are_put_up_where_the_options_ask_for_them() {
    assert_eq!(install_shortcuts("", "C:\\T", "Desk", "M"), "");
    assert_eq!(
        install_shortcuts("desktopicon", "C:\\T", "Desk", "M"),
        expected_desktop_shortcut_line("C:\\T", "Desk")
    );
    assert_eq!(
        install_shortcuts("startmenu", "C:\\T", "Desk", "M"),
        expected_start_menu_lines("", "M", "C:\\T", "Desk")
    );
    assert_eq!(
        install_shortcuts("startmenu desktopicon printer", "C:\\T", "Desk", "M"),
        expected_start_menu_lines(&expected_desktop_shortcut_line("C:\\T", "Desk"), "M", "C:\\T", "Desk")
    );
}

fn plan<'a>() -> InstallPlan<'a> {
    InstallPlan {
        options: "desktopicon startmenu printer",
        path: "D:\\Apps\\Desk\\",
        debug: false,
        uninstall_str: "rem old",
        subkey: "HKEY_LOCAL_MACHINE\\Software\\Microsoft\\Windows\\CurrentVersion\\Uninstall\\Desk",
        default_path: "C:\\Program Files\\Desk",
        start_menu: "%ProgramData%\\Microsoft\\Windows\\Start Menu\\Programs\\Desk",
        default_exe: "C:\\Program Files\\Desk\\Desk.exe",
        app_name: "Desk",
        version: "1.4.2-1",
        build_date: "2025-01-01 10:00",
        tmp_path: "C:\\Temp",
        mk_shortcut: "C:\\Temp\\Desk_mk_shortcut.vbs",
        uninstall_shortcut: "C:\\Temp\\Desk_uninstall_shortcut.vbs",
        tray_shortcut: "C:\\Temp\\Desk_tray_shortcut.vbs",
        is_win_10: true,
        size: 20480,
        src_exe: "C:\\Downloads\\desk-setup.exe",
        src_parent: Some("C:\\Downloads"),
        outgoing_only: false,
        stop_service: false,
        config_path: "C:\\Users\\ann\\Desk.toml",
        origin_exe: "C:\\Windows\\System32\\RuntimeBroker.exe",
        broker_exe: "RuntimeBroker_desk.exe",
    }
}

fn expected_install(p: &InstallPlan) -> String {
    let (path, exe) = install_target(p.path, p.default_path, p.default_exe);
    let versions: Vec<&str> = p.version.split(".").collect();
    let field = |i: usize| versions.get(i).copied().unwrap_or("0");
    let mut shortcuts = String::new();
    let (mut desktop, mut start, mut printer) = ("0", "0", "0");
    if p.options.contains("desktopicon") {
        shortcuts = expected_desktop_shortcut_line(p.tmp_path, p.app_name);
        desktop = "1";
    }
    if p.options.contains("startmenu") {
        shortcuts = expected_start_menu_lines(&shortcuts, p.start_menu, p.tmp_path, p.app_name);
        start = "1";
    }
    let install_printer = p.options.contains("printer") && p.is_win_10;
    if install_printer {
        printer = "1";
    }
    let dels = expected_cleanup_lines(p.mk_shortcut, p.uninstall_shortcut, p.tray_shortcut, p.tmp_path, p.app_name);
    let tray = if p.outgoing_only { String::new() } else { expected_tray_lines(p.tray_shortcut, p.tmp_path, p.app_name) };
    let remote_printer = if install_printer {
        format!("\"{}\" --install-remote-printer", p.src_exe)
    } else if p.is_win_10 {
        format!("\"{}\" --uninstall-remote-printer", p.src_exe)
    } else {
        String::new()
    };
    let create_service = get_create_service(p.outgoing_only, p.stop_service, p.app_name, &exe);
    expected_install_script(
        p.uninstall_str,
        &path,
        &copy_exe_cmd(p.src_parent, &path, p.origin_exe, p.broker_exe).unwrap(),
        p.subkey,
        &exe,
        p.app_name,
        &p.version.replace("-", "."),
        p.build_date,
        field(0),
        field(1),
        field(2),
        &p.size.to_string(),
        p.mk_shortcut,
        p.uninstall_shortcut,
        &tray,
        &shortcuts,
        p.tmp_path,
        if p.debug { "" } else { &dels },
        &get_import_config(p.outgoing_only, p.app_name, &exe, p.config_path),
        &expected_after_install(&exe, p.app_name, Some(start), Some(desktop), Some(printer), &create_service),
        &remote_printer,
        if p.debug { "timeout 300" } else { "" },
    )
}

#[test]
fn an_installation_is_put_together_from_its_parts() {
    let full = plan();
    let text = install_me(&full).unwrap();
    assert_eq!(text, expected_install(&full));
    assert!(text.starts_with("\nrem old\nchcp 65001\nmd \"D:\\Apps\\Desk\"\n"));
    assert!(text.contains("reg add HKEY_LOCAL_MACHINE\\Software\\Microsoft\\Windows\\CurrentVersion\\Uninstall\\Desk /f /v DisplayVersion /t REG_SZ /d \"1.4.2.1\"\n"));
    assert!(text.contains(" /f /v VersionBuild /t REG_DWORD /d 2-1\n"));
    assert!(text.contains(" /f /v EstimatedSize /t REG_DWORD /d 20480\n"));
    assert!(text.contains(" /f /v UninstallString /t REG_SZ /d \"\\\"D:\\Apps\\Desk\\Desk.exe\\\" --uninstall\"\n"));
    assert!(text.contains("\"C:\\Downloads\\desk-setup.exe\" --install-remote-printer\n"));
    assert!(text.ends_with("\n\n    "));
}

#[test]
fn the_switches_of_an_installation_change_its_script() {
    for options in ["", "desktopicon", "startmenu", "printer", "printer,startmenu"] {
        for (debug, is_win_10, outgoing_only, stop_service) in [
            (false, false, false, false),
            (true, true, false, true),
            (false, true, true, false),
            (true, false, true, true),
        ] {
            for path in ["", "E:\\Desk"] {
                let p = InstallPlan { options, debug, is_win_10, outgoing_only, stop_service, path, size: u64::MAX, ..plan() };
                assert_eq!(install_me(&p), Ok(expected_install(&p)));
            }
        }
    }
    let debug = install_me(&InstallPlan { debug: true, ..plan() }).unwrap();
    assert!(debug.ends_with("\ntimeout 300\n    "));
    assert!(!debug.contains("del /f /q \"C:\\Temp\\Desk_mk_shortcut.vbs\""));
    assert_eq!(install_me(&InstallPlan { src_parent: None, ..plan() }), Err(InstallError::NoParent));
}

fn update<'a>() -> UpdatePlan<'a> {
    UpdatePlan {
        debug: false,
        app_name: "Desk",
        src_exe: "C:\\Downloads\\desk-new.exe",
        src_parent: Some("C:\\Downloads"),
        subkey: "HKLM\\Desk",
        path: "D:\\Apps\\Desk",
        exe: "D:\\Apps\\Desk\\Desk.exe",
        version: "1.5.0",
        build_date: "2025-02-02 12:00",
        size: 30000,
        pid: 4242,
        is_service_running: true,
        is_printer_installed: true,
        origin_exe: "C:\\Windows\\System32\\RuntimeBroker.exe",
        broker_exe: "RuntimeBroker_desk.exe",
    }
}

fn expected_update(p: &UpdatePlan) -> String {
    let versions: Vec<&str> = p.version.split(".").collect();
    let field = |i: usize| versions.get(i).copied().unwrap_or("0");
    let reg_cmd = expected_update_reg_lines(
        p.subkey,
        p.exe,
        &p.version.replace("-", "."),
        p.build_date,
        field(0),
        field(1),
        field(2),
        &p.size.to_string(),
    );
    let (off, on) = if p.is_printer_installed {
        (
            format!("\"{}\" --uninstall-remote-printer", p.src_exe),
            format!("\"{}\" --install-remote-printer", p.src_exe),
        )
    } else {
        (String::new(), String::new())
    };
    expected_update_script(
        p.app_name,
        &format!(" /FI \"PID ne {}\"", p.pid),
        &reg_cmd,
        &copy_exe_cmd(p.src_parent, p.path, p.origin_exe, p.broker_exe).unwrap(),
        &if p.is_service_running { format!("sc start {}", p.app_name) } else { String::new() },
        &off,
        &on,
        if p.debug { "timeout 300" } else { "" },
    )
}

#[test]
fn an_update_brings_back_what_was_there() {
    let full = update();
    let text = update_me(&full).unwrap();
    assert_eq!(text, expected_update(&full));
    assert!(text.starts_with("\nchcp 65001\nsc stop Desk\ntaskkill /F /IM Desk.exe /FI \"PID ne 4242\"\n"));
    assert!(text.contains("\nsc start Desk\n\"C:\\Downloads\\desk-new.exe\" --uninstall-remote-printer\n\"C:\\Downloads\\desk-new.exe\" --install-remote-printer\n"));
    for (debug, is_service_running, is_printer_installed) in
        [(true, false, false), (false, true, false), (true, false, true)]
    {
        let p = UpdatePlan { debug, is_service_running, is_printer_installed, version: "2", ..update() };
        assert_eq!(update_me(&p), Ok(expected_update(&p)));
    }
    assert_eq!(update_me(&UpdatePlan { src_parent: None, ..update() }), Err(InstallError::NoParent));
}

#[test]
fn windows_are_brought_back_in_every_session_but_session_zero() {
    assert_eq!(sessions_to_restore(&vec![0, 3, 0, 1, 3]), vec![3, 1, 3]);
    assert_eq!(sessions_to_restore(&vec![0]), Vec::<u32>::new());
    assert_eq!(sessions_to_restore(&vec![]), Vec::<u32>::new());
}

#[test]
fn the_service_is_set_up_and_taken_down_by_scripts() {
    assert_eq!(
        uninstall_service("Desk", "B.exe", 9),
        expected_uninstall_service_script("Desk", "B.exe", " /FI \"PID ne 9\"")
    );
    assert_eq!(
        install_service("Desk", "D:\\Desk.exe", "C:\\T", "C:\\T\\tray.vbs", "C:\\Desk.toml", false, false, 9),
        expected_install_service_script(
            "Desk",
            " /FI \"PID ne 9\"",
            "C:\\T\\tray.vbs",
            "C:\\T",
            &get_import_config(false, "Desk", "D:\\Desk.exe", "C:\\Desk.toml"),
            &get_create_service(false, false, "Desk", "D:\\Desk.exe"),
        )
    );
    assert_eq!(
        install_service("Desk", "D:\\Desk.exe", "C:\\T", "C:\\T\\tray.vbs", "C:\\Desk.toml", true, true, 9),
        expected_install_service_script("Desk", " /FI \"PID ne 9\"", "C:\\T\\tray.vbs", "C:\\T", "", "")
    );
}

#[test]
fn an_option_is_recorded_by_the_installed_server_only() {
    assert_eq!(
        update_install_option(true, true, "Desk", "PRINTER", "1"),
        Some("chcp 65001 && reg add HKEY_CLASSES_ROOT\\.desk /f /v PRINTER /t REG_SZ /d \"1\"".to_string())
    );
    assert_eq!(update_install_option(false, true, "Desk", "PRINTER", "1"), None);
    assert_eq!(update_install_option(true, false, "Desk", "PRINTER", "1"), None);
}

#[test]
fn a_package_is_installed_quietly_or_with_a_window() {
    assert_eq!(update_me_msi("C:\\d.msi", true), "chcp 65001 && msiexec /i C:\\d.msi /qn LAUNCH_TRAY_APP=N");
    assert_eq!(update_me_msi("C:\\d.msi", false), "chcp 65001 && msiexec /i C:\\d.msi ");
}
