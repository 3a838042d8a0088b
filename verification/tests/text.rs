use apw::text::{
    contains, decimal_i64, decimal_u64, parse_i64, parse_u32, starts_with, str_eq, text_after,
    text_before, to_ascii_lower, trim,
};

#[test]
fn texts_are_compared_and_searched() {
    assert!(str_eq("gr\u{fc}n", "gr\u{fc}n"));
    assert!(!str_eq("a", "ab"));
    assert!(contains("https://a", "://"));
    assert!(contains("abc", ""));
    assert!(!contains("ab", "abc"));
    assert!(starts_with("/bin", "/"));
    assert!(!starts_with("", "/"));
    assert_eq!(text_after("key=value=x", "="), Some("value=x".to_string()));
    assert_eq!(text_before("key=value", "="), Some("key".to_string()));
    assert_eq!(text_before("key", "="), None);
}

#[test]
fn white_space_is_that_of_unicode() {
    assert_eq!(trim(" \t\n\u{a0}\u{3000}x y\u{2028} "), "x y");
    assert_eq!(trim("\u{200b}x"), "\u{200b}x");
    assert_eq!(trim(" \u{85} "), "");
    for n in 0..=0x10ffffu32 {
        if let Some(c) = char::from_u32(n) {
            let one = c.to_string();
            assert_eq!(trim(&one).is_empty(), one.trim().is_empty(), "{n:x}");
            if n > 0x3100 {
                break;
            }
        }
    }
}

#[test]
fn numbers_are_read_as_the_standard_library_reads_them() {
    for text in [
        "0", "-0", "+7", "007", "9223372036854775807", "9223372036854775808",
        "-9223372036854775808", "-9223372036854775809", "", "-", "+", "1a", " 1", "--1",
        "99999999999999999999999999", "000000000000000000000000001",
    ] {
        assert_eq!(parse_i64(text), text.parse::<i64>().ok(), "{text}");
        assert_eq!(parse_u32(text), text.parse::<u32>().ok(), "{text}");
    }
    assert_eq!(parse_u32("4294967295"), Some(u32::MAX));
    assert_eq!(parse_u32("4294967296"), None);
}

#[test]
fn numbers_are_written_in_decimal() {
    for n in [0, 9, 10, 101, u64::MAX] {
        assert_eq!(decimal_u64(n), n.to_string());
    }
    for n in [0, -1, i64::MIN, i64::MAX, 42] {
        assert_eq!(decimal_i64(n), n.to_string());
    }
}

#[test]
fn only_ascii_letters_change_case() {
    assert_eq!(to_ascii_lower("Not FOUND \u{c4}"), "not found \u{c4}");
}
