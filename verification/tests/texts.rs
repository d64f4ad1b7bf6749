use probationdesk::text::{
    chars_of, contains, decimal_text, ends_with, find, lines, lowercased, parse_u32, replace,
    split, starts_with, string_of, trim, trim_end_matches, trim_matches,
};
use probationdesk::wide::{decode_utf16, encode_utf16, wide_string};

fn c(s: &str) -> Vec<char> {
    s.chars().collect()
}

fn s(v: &Vec<char>) -> String {
    v.iter().collect()
}

#[test]
fn characters_and_strings_convert_both_ways() {
    assert_eq!(chars_of("a\u{e9}\u{1F600}"), vec!['a', '\u{e9}', '\u{1F600}']);
    assert_eq!(string_of(&vec!['x', '\u{4e2d}']), "x\u{4e2d}");
    assert_eq!(chars_of(""), Vec::<char>::new());
}

#[test]
fn searching_finds_the_first_occurrence() {
    assert_eq!(find(&c("abcabc"), &c("bc"), 0), Some(1));
    assert_eq!(find(&c("abcabc"), &c("bc"), 2), Some(4));
    assert_eq!(find(&c("abcabc"), &c("bc"), 5), None);
    assert_eq!(find(&c("abc"), &c(""), 3), Some(3));
    assert_eq!(find(&c("abc"), &c(""), 4), None);
    assert_eq!(find(&c("ab"), &c("abc"), 0), None);
    assert!(contains(&c("custom-error"), &c("error")));
    assert!(!contains(&c("custom-erro"), &c("error")));
    assert!(contains(&c(""), &c("")));
}

#[test]
fn prefixes_and_suffixes_are_recognised() {
    assert!(starts_with(&c("ProcessId=1"), &c("ProcessId=")));
    assert!(!starts_with(&c("processId=1"), &c("ProcessId=")));
    assert!(!starts_with(&c("Pro"), &c("ProcessId=")));
    assert!(ends_with(&c("c:\\app.exe\""), &c("app.exe\"")));
    assert!(!ends_with(&c("exe"), &c("app.exe")));
    assert!(ends_with(&c("x"), &c("")));
}

#[test]
fn splitting_keeps_empty_pieces() {
    let pieces: Vec<String> = split(&c("a,,b,"), ',').iter().map(s).collect();
    assert_eq!(pieces, vec!["a", "", "b", ""]);
    let one: Vec<String> = split(&c(""), ',').iter().map(s).collect();
    assert_eq!(one, vec![""]);
}

#[test]
fn trimming_drops_white_space_or_one_character() {
    assert_eq!(s(&trim(&c(" \t\r\n a b \u{a0}\u{3000}"))), "a b");
    assert_eq!(s(&trim(&c("   "))), "");
    assert_eq!(s(&trim_end_matches(&c("\\\\C:\\dir\\\\"), '\\')), "\\\\C:\\dir");
    assert_eq!(s(&trim_matches(&c("\0\0a\0b\0"), '\0')), "a\0b");
    assert_eq!(s(&trim_matches(&c("\0\0"), '\0')), "");
}

#[test]
fn numbers_are_read_as_the_standard_library_reads_them() {
    for text in ["0", "7", "+7", "007", "4294967295", "4294967296", "99999999999999999999", "", "+",
        "-1", "1 ", " 1", "1_000", "0x10", "++1", "\u{661}"]
    {
        assert_eq!(parse_u32(&c(text)), text.parse::<u32>().ok(), "{:?}", text);
    }
}

#[test]
fn numbers_are_written_in_decimal() {
    for n in [0u32, 1, 9, 10, 11, 99, 100, 4096, 65535, 4294967295] {
        assert_eq!(s(&decimal_text(n)), n.to_string());
    }
}

#[test]
fn lines_end_with_a_line_feed() {
    for text in ["", "a", "a\n", "a\nb", "a\r\nb\r\n", "a\r", "a\r\n\r\n", "\n", "\r\n", "a\n\nb", "a\rb\n", "x\r\r\n"] {
        let got: Vec<String> = lines(&c(text)).iter().map(s).collect();
        let expected: Vec<String> = text.lines().map(|l| l.to_string()).collect();
        assert_eq!(got, expected, "{:?}", text);
    }
}

#[test]
fn replacing_goes_from_left_to_right() {
    assert_eq!(s(&replace(&c("aaa"), &c("aa"), &c("b"))), "ba");
    assert_eq!(s(&replace(&c("a-b-c"), &c("-"), &c(""))), "abc");
    assert_eq!(
        s(&replace(&c("Software\\Microsoft\\x\\Microsoft"), &c("Microsoft"), &c("Wow6432Node\\Microsoft"))),
        "Software\\Microsoft\\x\\Microsoft".replace("Microsoft", "Wow6432Node\\Microsoft")
    );
    assert_eq!(s(&replace(&c(""), &c("x"), &c("y"))), "");
}

#[test]
fn lowering_follows_the_standard_library() {
    assert_eq!(s(&lowercased(&c("TestApp.EXE \u{c9}\u{130}"))), "TestApp.EXE \u{c9}\u{130}".to_lowercase());
}

#[test]
fn wide_strings_are_utf16_with_a_zero_at_the_end() {
    for text in ["", "cmd.exe", "\u{e9}\u{4e2d}", "a\u{1F600}b\u{10FFFF}\u{10000}\u{FFFF}"] {
        let mut expected: Vec<u16> = text.encode_utf16().collect();
        assert_eq!(encode_utf16(text), expected);
        expected.push(0);
        assert_eq!(wide_string(text), expected);
    }
}

#[test]
fn utf16_is_decoded_unless_it_is_broken() {
    for text in ["", "ann", "\u{e9}\u{4e2d}", "a\u{1F600}b\u{10FFFF}\u{10000}\u{FFFF}\u{0}"] {
        let units: Vec<u16> = text.encode_utf16().collect();
        assert_eq!(decode_utf16(&units), Some(text.chars().collect::<Vec<char>>()));
    }
    for units in [vec![0xD800u16], vec![0xDC00], vec![0x61, 0xD83D], vec![0xD83D, 0x61], vec![0xDE00, 0xD83D], vec![0xD800, 0xD800, 0xDC00]] {
        assert_eq!(decode_utf16(&units), None);
        assert!(String::from_utf16(&units).is_err());
    }
}
