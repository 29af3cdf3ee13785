use ezboom::misc::numbers::{format_i32, format_usize, parse_i32, parse_usize};
use ezboom::misc::text::{bytes_eq, bytes_end_with, bytes_start_with, str_ends_with, str_eq, str_starts_with};

#[test]
fn signed_numbers_are_parsed() {
    assert_eq!(parse_i32("0"), Some(0));
    assert_eq!(parse_i32("42"), Some(42));
    assert_eq!(parse_i32("+42"), Some(42));
    assert_eq!(parse_i32("-42"), Some(-42));
    assert_eq!(parse_i32("007"), Some(7));
    assert_eq!(parse_i32("-0"), Some(0));
    assert_eq!(parse_i32("2147483647"), Some(i32::MAX));
    assert_eq!(parse_i32("-2147483648"), Some(i32::MIN));
}

#[test]
fn what_is_no_signed_number_is_refused() {
    assert_eq!(parse_i32(""), None);
    assert_eq!(parse_i32("-"), None);
    assert_eq!(parse_i32("+"), None);
    assert_eq!(parse_i32("12a"), None);
    assert_eq!(parse_i32(" 12"), None);
    assert_eq!(parse_i32("12 "), None);
    assert_eq!(parse_i32("1_000"), None);
    assert_eq!(parse_i32("--1"), None);
    assert_eq!(parse_i32("2147483648"), None);
    assert_eq!(parse_i32("-2147483649"), None);
    assert_eq!(parse_i32("99999999999999999999999999"), None);
    assert_eq!(parse_i32("٣"), None);
}

#[test]
fn unsigned_numbers_are_parsed() {
    assert_eq!(parse_usize("0"), Some(0));
    assert_eq!(parse_usize("+15"), Some(15));
    assert_eq!(parse_usize("640"), Some(640));
    assert_eq!(parse_usize(&usize::MAX.to_string()), Some(usize::MAX));
    assert_eq!(parse_usize("-1"), None);
    assert_eq!(parse_usize(""), None);
    assert_eq!(parse_usize("+"), None);
    assert_eq!(parse_usize("18446744073709551616"), None);
    assert_eq!(parse_usize("6x"), None);
}

#[test]
fn parsing_agrees_with_the_standard_library() {
    for text in ["1", "-1", "+1", "", "x", "2147483647", "2147483648", "-2147483648", "00", "+-1"] {
        assert_eq!(parse_i32(text), text.parse::<i32>().ok());
        assert_eq!(parse_usize(text), text.parse::<usize>().ok());
    }
}

#[test]
fn numbers_are_written_in_base_ten() {
    assert_eq!(format_usize(0), "0");
    assert_eq!(format_usize(7), "7");
    assert_eq!(format_usize(640), "640");
    assert_eq!(format_usize(usize::MAX), usize::MAX.to_string());
    assert_eq!(format_i32(0), "0");
    assert_eq!(format_i32(-1), "-1");
    assert_eq!(format_i32(1024), "1024");
    assert_eq!(format_i32(i32::MAX), "2147483647");
    assert_eq!(format_i32(i32::MIN), "-2147483648");
}

#[test]
fn written_numbers_are_read_back() {
    for n in [0, 1, -1, 9, 10, 99, 100, -100, 65535, i32::MAX, i32::MIN] {
        assert_eq!(parse_i32(&format_i32(n)), Some(n));
    }
}

#[test]
fn texts_are_compared_by_bytes() {
    assert!(str_eq("abc", "abc"));
    assert!(!str_eq("abc", "abd"));
    assert!(!str_eq("abc", "ab"));
    assert!(str_eq("", ""));
    assert!(str_ends_with("doom2.wad", ".wad"));
    assert!(str_ends_with("doom2.wad", ""));
    assert!(!str_ends_with("doom2.wad", ".WAD"));
    assert!(!str_ends_with("ad", ".wad"));
    assert!(str_starts_with("-file", "-"));
    assert!(!str_starts_with("file", "-"));
    assert!(bytes_eq(b"ab", b"ab"));
    assert!(!bytes_eq(b"ab", b"ba"));
    assert!(bytes_start_with(b"HACX1", b"HACX"));
    assert!(!bytes_start_with(b"HAC", b"HACX"));
    assert!(bytes_end_with(b"HACX1", b"X1"));
    assert!(!bytes_end_with(b"HACX1", b"X"));
}
