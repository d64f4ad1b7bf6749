use probationdesk::connectivity::{
    diff_recent_connectivity, restore_reg_connectivity, RegItem, RegRecovery, RegSubkey, RegValue,
};
use probationdesk::cursor::{get_bitmap, get_cursor, CursorError};
use probationdesk::dialog::{message_box, wants_copy, MessagePlan};
use probationdesk::printer::{get_printer_names, send_raw_data_to_printer, PrinterError};
use probationdesk::process::{
    check_update_broker_process, is_cur_exe_the_installed, may_kill, name_matches,
    try_kill_rustdesk_main_window_process, ProcessInfo,
};
use probationdesk::registry::RegType;
use probationdesk::wallpaper::{get_recent_wallpaper, need_remove, support, wallpaper_to_restore};

fn value(bytes: &[u8], vtype: RegType) -> RegValue {
    RegValue { bytes: bytes.to_vec(), vtype }
}

fn key(name: &str, values: Vec<(&str, RegValue)>) -> RegSubkey {
    RegSubkey {
        name: name.to_string(),
        values: values.into_iter().map(|(n, v)| RegItem { name: n.to_string(), value: v }).collect(),
    }
}

#[test]
fn the_first_changed_connectivity_is_found() {
    let before = vec![
        key("A", vec![("Recent", value(&[1, 2], RegType::REG_BINARY))]),
        key("B", vec![("Other", value(&[0], RegType::REG_DWORD)), ("Recent", value(&[3], RegType::REG_BINARY))]),
        key("C", vec![("Recent", value(&[5], RegType::REG_BINARY))]),
    ];
    let later = vec![
        key("A", vec![("Recent", value(&[1, 2], RegType::REG_BINARY))]),
        key("D", vec![("Recent", value(&[9], RegType::REG_BINARY))]),
        key("B", vec![("Recent", value(&[4], RegType::REG_SZ))]),
        key("C", vec![("Recent", value(&[6], RegType::REG_BINARY))]),
    ];
    assert_eq!(
        diff_recent_connectivity(&before, &later),
        Some(RegRecovery {
            path: "SYSTEM\\CurrentControlSet\\Control\\GraphicsDrivers\\Connectivity\\B".to_string(),
            key: "Recent".to_string(),
            old: (vec![3], 3),
            new: (vec![4], 1),
        })
    );
}

#[test]
fn a_kind_that_changed_is_a_change() {
    let before = vec![key("A", vec![("Recent", value(&[1], RegType::REG_BINARY))])];
    let later = vec![key("A", vec![("Recent", value(&[1], RegType::REG_QWORD))])];
    let found = diff_recent_connectivity(&before, &later).unwrap();
    assert_eq!((found.old.1, found.new.1), (3, 11));
}

#[test]
fn nothing_is_found_where_nothing_changed() {
    let before = vec![
        key("A", vec![("Recent", value(&[1], RegType::REG_BINARY))]),
        key("B", vec![("Else", value(&[1], RegType::REG_BINARY))]),
    ];
    let later = vec![
        key("A", vec![("Recent", value(&[1], RegType::REG_BINARY))]),
        key("B", vec![("Recent", value(&[2], RegType::REG_BINARY))]),
        key("N", vec![("Recent", value(&[2], RegType::REG_BINARY))]),
        key("A", vec![("recent", value(&[7], RegType::REG_BINARY))]),
    ];
    assert_eq!(diff_recent_connectivity(&before, &later), None);
    assert_eq!(diff_recent_connectivity(&vec![], &later), None);
    assert_eq!(diff_recent_connectivity(&before, &vec![]), None);
}

fn recovery() -> RegRecovery {
    RegRecovery { path: "P".to_string(), key: "Recent".to_string(), old: (vec![3], 3), new: (vec![4], 1) }
}

#[test]
fn a_change_is_taken_back_while_the_value_is_still_the_new_one() {
    assert_eq!(
        restore_reg_connectivity(recovery(), false, &value(&[4], RegType::REG_SZ)),
        Some(value(&[3], RegType::REG_BINARY))
    );
    assert_eq!(restore_reg_connectivity(recovery(), false, &value(&[5], RegType::REG_SZ)), None);
    assert_eq!(restore_reg_connectivity(recovery(), false, &value(&[4], RegType::REG_BINARY)), None);
    assert_eq!(
        restore_reg_connectivity(recovery(), true, &value(&[5], RegType::REG_DWORD)),
        Some(value(&[3], RegType::REG_BINARY))
    );
    let odd = RegRecovery { old: (vec![], 99), new: (vec![], -4), ..recovery() };
    assert_eq!(
        restore_reg_connectivity(odd, false, &value(&[], RegType::REG_NONE)),
        Some(value(&[], RegType::REG_NONE))
    );
}

#[test]
fn a_hidden_cursor_is_no_cursor() {
    assert_eq!(get_cursor(Some((1, 0xABCD))), Ok(Some(0xABCD)));
    assert_eq!(get_cursor(Some((3, 5))), Ok(Some(5)));
    assert_eq!(get_cursor(Some((0, 0xABCD))), Ok(None));
    assert_eq!(get_cursor(Some((2, 0xABCD))), Ok(None));
    assert_eq!(get_cursor(None), Err(CursorError::Unreadable));
}

#[test]
fn a_mask_has_one_plane_and_one_bit_for_a_pixel() {
    assert_eq!(get_bitmap(1, 1), Ok(()));
    assert_eq!(get_bitmap(2, 1), Err(CursorError::MultiPlane));
    assert_eq!(get_bitmap(0, 32), Err(CursorError::MultiPlane));
    assert_eq!(get_bitmap(1, 32), Err(CursorError::NotAMask));
}

#[test]
fn a_message_is_copied_unless_it_ends_with_an_exclamation_mark() {
    assert!(wants_copy("id: 123", false));
    assert!(!wants_copy("Done!", false));
    assert!(wants_copy("Done!", true));
    assert!(wants_copy("", false));
}

#[test]
fn a_message_is_shown_in_a_dialog_or_goes_to_the_console_and_a_file() {
    assert_eq!(
        message_box("id: 123", false, true, true, Some("out.txt")),
        MessagePlan {
            dialog: Some("id: 123\n\nThe text above was copied to the clipboard".to_string()),
            print: None,
            write: None,
        }
    );
    assert_eq!(
        message_box("Done!", false, false, false, None),
        MessagePlan { dialog: Some("Done!".to_string()), print: None, write: None }
    );
    assert_eq!(
        message_box("id: 123", true, true, true, Some("out.txt")),
        MessagePlan {
            dialog: None,
            print: Some("id: 123".to_string()),
            write: Some(("out.txt".to_string(), "id: 123".to_string())),
        }
    );
    assert_eq!(
        message_box("id: 123", true, false, false, Some("")),
        MessagePlan { dialog: None, print: None, write: None }
    );
}

#[test]
fn a_job_goes_to_the_printer_asked_for_or_to_the_default() {
    let known = vec!["Office".to_string(), "Lab".to_string()];
    assert_eq!(send_raw_data_to_printer(Some("Lab".to_string()), "Office", Some(&known)), Ok("Lab".to_string()));
    assert_eq!(
        send_raw_data_to_printer(Some("Attic".to_string()), "Office", Some(&known)),
        Err(PrinterError::NotFound)
    );
    assert_eq!(send_raw_data_to_printer(Some("Attic".to_string()), "Office", None), Ok("Attic".to_string()));
    assert_eq!(send_raw_data_to_printer(None, "Office", Some(&known)), Ok("Office".to_string()));
    assert_eq!(send_raw_data_to_printer(Some(String::new()), "Office", None), Ok("Office".to_string()));
    assert_eq!(send_raw_data_to_printer(None, "", Some(&known)), Err(PrinterError::NoPrinter));
    assert!(get_printer_names(1));
    assert!(get_printer_names(499));
    assert!(!get_printer_names(0));
    assert!(!get_printer_names(500));
}

fn process(pid: u32, name: &str, cmd: &[&str], user: Option<&str>, empty_link: bool) -> ProcessInfo {
    ProcessInfo {
        pid,
        name: name.to_string(),
        cmd: cmd.iter().map(|c| c.to_string()).collect(),
        user_id: user.map(|u| u.to_string()),
        second_is_empty_link: empty_link,
    }
}

#[test]
fn the_main_window_of_another_user_is_found() {
    let me = Some("S-1-5-18".to_string());
    let all = vec![
        process(1, "other.exe", &["C:\\other.exe"], Some("S-1"), false),
        process(2, "Desk.exe", &[], Some("S-1"), false),
        process(3, "Desk.exe", &["C:\\Desk.exe", "--server"], Some("S-1"), false),
        process(4, "Desk.exe", &["C:\\Desk.exe"], Some("S-1-5-18"), false),
        process(5, "Desk.exe", &["C:\\launcher"], Some("S-1"), false),
        process(6, "Desk.exe", &["C:\\Desk.exe", "desk://", "x"], Some("S-1"), true),
        process(7, "DESK.EXE", &["C:\\Apps\\DESK.exe", "desk://"], Some("S-1"), true),
        process(8, "desk", &["desk"], None, false),
    ];
    assert_eq!(try_kill_rustdesk_main_window_process(&all, 99, &me, "Desk"), Some(7));
    assert_eq!(try_kill_rustdesk_main_window_process(&all, 7, &me, "Desk"), Some(8));
    let mut fewer = all;
    fewer.truncate(7);
    assert_eq!(try_kill_rustdesk_main_window_process(&fewer, 7, &me, "Desk"), None);
    assert_eq!(try_kill_rustdesk_main_window_process(&fewer, 99, &me, ""), None);
    assert_eq!(try_kill_rustdesk_main_window_process(&fewer, 99, &None, "desk"), Some(4));
    assert_eq!(try_kill_rustdesk_main_window_process(&vec![], 99, &me, "Desk"), None);
}

#[test]
fn names_of_processes_are_held_in_lowercase() {
    assert!(name_matches("LogonUI.exe", "logonui.EXE"));
    assert!(name_matches("xLogonUI.exe.bak", "LogonUI.exe"));
    assert!(!name_matches("Logon.exe", "LogonUI.exe"));
    assert!(may_kill("Desk.EXE", "desk.exe"));
    assert!(!may_kill("Desk.exe", "desk"));
}

#[test]
fn the_broker_is_copied_when_it_is_missing_or_older() {
    assert!(check_update_broker_process(false, 10, Some(10)));
    assert!(!check_update_broker_process(true, 10, Some(10)));
    assert!(check_update_broker_process(true, 10, Some(11)));
    assert!(check_update_broker_process(true, 10, None));
}

#[test]
fn the_running_program_is_the_installed_one_when_the_paths_agree() {
    assert!(is_cur_exe_the_installed(true, "C:\\Program Files\\Desk\\Desk.exe", "c:\\program files\\desk\\desk.EXE"));
    assert!(!is_cur_exe_the_installed(false, "C:\\Desk.exe", "C:\\Desk.exe"));
    assert!(!is_cur_exe_the_installed(true, "C:\\Temp\\Desk.exe", "C:\\Desk.exe"));
}

#[test]
fn the_wallpaper_is_taken_away_and_put_back() {
    assert_eq!(
        get_recent_wallpaper(false, Some(3)),
        Some("Software\\Microsoft\\Windows\\CurrentVersion\\Explorer\\Wallpapers".to_string())
    );
    assert_eq!(
        get_recent_wallpaper(true, Some(3)),
        Some("3\\Software\\Microsoft\\Windows\\CurrentVersion\\Explorer\\Wallpapers".to_string())
    );
    assert_eq!(get_recent_wallpaper(true, None), None);
    assert!(need_remove(Some("C:\\w.jpg")));
    assert!(!need_remove(Some("")));
    assert!(!need_remove(None));
    assert!(support(true, None));
    assert!(support(false, Some("C:\\w.jpg")));
    assert!(!support(false, Some("")));
    assert!(!support(false, None));
    assert_eq!(wallpaper_to_restore(Some("C:\\now.jpg"), Some("C:\\recent.jpg".to_string())), Some("C:\\recent.jpg".to_string()));
    assert_eq!(wallpaper_to_restore(Some("C:\\now.jpg"), None), Some("C:\\now.jpg".to_string()));
    assert_eq!(wallpaper_to_restore(Some(""), Some("C:\\recent.jpg".to_string())), None);
    assert_eq!(wallpaper_to_restore(None, Some("C:\\recent.jpg".to_string())), None);
}
