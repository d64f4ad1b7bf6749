use probationdesk::desktop::{resolutions, str_to_device_name, Resolution};
use probationdesk::keyboard::{get_char_from_unicode, get_unicode_from_vk, keyboard_state};
use probationdesk::script::{
    get_undone_file, needs_other_folder, run_cmds, script_bytes, script_name, script_text, to_le,
    user_accessible_folder, ScriptError,
};

#[test]
fn units_are_written_low_byte_first() {
    assert_eq!(to_le(&vec![0x0041, 0x1234, 0xFFFE]), vec![0x41, 0x00, 0x34, 0x12, 0xFE, 0xFF]);
    assert_eq!(to_le(&vec![]), Vec::<u8>::new());
}

#[test]
fn some_characters_keep_a_batch_file_from_running() {
    assert!(needs_other_folder("C:\\Users\\a&b\\Temp"));
    assert!(needs_other_folder("C:\\Users\\a@b\\Temp"));
    assert!(needs_other_folder("C:\\Users\\a^b\\Temp"));
    assert!(!needs_other_folder("C:\\Users\\ann\\AppData\\Local\\Temp"));
    assert!(!needs_other_folder(""));
}

#[test]
fn scripts_go_to_a_folder_every_user_can_reach() {
    assert_eq!(user_accessible_folder(Some("D:"), true, true), Some("D:\\ProgramData".to_string()));
    assert_eq!(user_accessible_folder(None, false, true), Some("C:\\Windows\\Temp".to_string()));
    assert_eq!(user_accessible_folder(None, true, false), Some("C:\\ProgramData".to_string()));
    assert_eq!(user_accessible_folder(Some("D:"), false, false), None);
}

#[test]
fn a_script_is_named_after_the_program_and_its_purpose() {
    assert_eq!(script_name("App", "install", "bat"), "App_install.bat");
    assert_eq!(script_name("App", "mk_shortcut", "vbs"), "App_mk_shortcut.vbs");
    assert_eq!(get_undone_file("App_install.bat"), "App_install.bat.undone");
}

#[test]
fn a_batch_file_removes_its_marker_at_the_end() {
    assert_eq!(
        script_text("chcp 65001\nsc stop App", "bat", "C:\\T\\App_x.bat.undone"),
        "\r\nchcp 65001\r\nsc stop App\r\nif exist \"C:\\T\\App_x.bat.undone\" del /f /q \"C:\\T\\App_x.bat.undone\"\r\n"
    );
}

#[test]
fn every_line_of_a_script_ends_the_same_way() {
    assert_eq!(script_text("a\r\nb\nc\r\n\nd\r", "vbs", "unused"), "a\r\nb\r\nc\r\n\r\nd\r");
    assert_eq!(script_text("", "vbs", "unused"), "");
    assert_eq!(script_text("x", "BAT", "unused"), "x");
}

#[test]
fn a_script_of_the_scripting_host_is_written_in_utf16() {
    assert_eq!(script_bytes("A\u{e9}", "vbs"), vec![0x41, 0x00, 0xE9, 0x00]);
    assert_eq!(script_bytes("A\u{e9}", "bat"), vec![0x41, 0xC3, 0xA9]);
    assert_eq!(script_bytes("\u{1F600}", "vbs"), vec![0x3D, 0xD8, 0x00, 0xDE]);
    assert_eq!(script_bytes("\u{1F600}", "txt"), "\u{1F600}".as_bytes().to_vec());
}

#[test]
fn a_script_has_to_start_and_to_run_to_its_end() {
    assert_eq!(run_cmds(true, false), Ok(()));
    assert_eq!(run_cmds(true, true), Err(ScriptError::Undone));
    assert_eq!(run_cmds(false, true), Err(ScriptError::NotStarted));
    assert_eq!(run_cmds(false, false), Err(ScriptError::NotStarted));
}

#[test]
fn a_unit_writes_a_character_unless_it_is_a_control_code() {
    assert_eq!(get_char_from_unicode(0x61), Some('a'));
    assert_eq!(get_char_from_unicode(0x41), Some('A'));
    assert_eq!(get_char_from_unicode(0x20), Some(' '));
    assert_eq!(get_char_from_unicode(0x4E2D), Some('\u{4e2d}'));
    assert_eq!(get_char_from_unicode(0x1B), None);
    assert_eq!(get_char_from_unicode(0x00), None);
    assert_eq!(get_char_from_unicode(0x7F), None);
    assert_eq!(get_char_from_unicode(0x9F), None);
    assert_eq!(get_char_from_unicode(0xD800), None);
    assert_eq!(get_char_from_unicode(0xDFFF), None);
    assert_eq!(get_char_from_unicode(0xFFFF), Some('\u{ffff}'));
}

#[test]
fn the_shift_keys_are_held_down_in_the_state_of_the_keyboard() {
    let none = keyboard_state(false, false);
    assert_eq!(none, vec![0u8; 256]);
    let left = keyboard_state(true, false);
    assert_eq!((left[0x10], left[0xA0], left[0xA1]), (129, 129, 0));
    let right = keyboard_state(false, true);
    assert_eq!((right[0x10], right[0xA0], right[0xA1]), (129, 0, 129));
    let both = keyboard_state(true, true);
    assert_eq!((both[0x10], both[0xA0], both[0xA1]), (129, 129, 129));
    assert_eq!(both.iter().filter(|s| **s != 0).count(), 3);
    assert_eq!(both.len(), 256);
}

#[test]
fn a_key_writes_a_unit_when_it_writes_exactly_one() {
    assert_eq!(get_unicode_from_vk(1, &vec![0x61, 0, 0]), Some(0x61));
    assert_eq!(get_unicode_from_vk(0, &vec![0x61]), None);
    assert_eq!(get_unicode_from_vk(2, &vec![0x61, 0x62]), None);
    assert_eq!(get_unicode_from_vk(-1, &vec![0x5E]), None);
    assert_eq!(get_unicode_from_vk(1, &vec![]), None);
}

#[test]
fn every_resolution_is_named_once() {
    let mode = |width, height| Resolution { width, height };
    assert_eq!(
        resolutions(&vec![mode(800, 600), mode(1024, 768), mode(800, 600), mode(800, 601), mode(1024, 768)]),
        vec![mode(800, 600), mode(1024, 768), mode(800, 601)]
    );
    assert_eq!(resolutions(&vec![]), vec![]);
}

#[test]
fn a_device_name_has_thirty_two_units() {
    let mut expected = [0u16; 32];
    for (i, u) in "\\\\.\\DISPLAY1".encode_utf16().enumerate() {
        expected[i] = u;
    }
    assert_eq!(str_to_device_name("\\\\.\\DISPLAY1"), expected);
    assert_eq!(str_to_device_name(""), [0u16; 32]);
    let long = "0123456789abcdefghijklmnopqrstuvwxyz";
    let cut: Vec<u16> = long.encode_utf16().take(32).collect();
    assert_eq!(str_to_device_name(long).to_vec(), cut);
    let exact = "0123456789abcdefghijklmnopqrstu";
    let mut padded: Vec<u16> = exact.encode_utf16().collect();
    padded.push(0);
    assert_eq!(str_to_device_name(exact).to_vec(), padded);
}
