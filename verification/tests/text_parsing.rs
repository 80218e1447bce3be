use snaxum::paths::{is_absolute, join};
use snaxum::text::{is_whitespace, parse_i64, parse_numbers, trim};

#[test]
fn parse_numbers_with_spaces() {
    assert_eq!(parse_numbers("1, 2,3"), Some(vec![1, 2, 3]));
    assert_eq!(parse_numbers(" 10 "), Some(vec![10]));
    assert_eq!(parse_numbers("+5,-7"), Some(vec![5, -7]));
}

#[test]
fn parse_numbers_rejects_bad_pieces() {
    assert_eq!(parse_numbers(""), None);
    assert_eq!(parse_numbers("1,,2"), None);
    assert_eq!(parse_numbers("1,"), None);
    assert_eq!(parse_numbers("1;2"), None);
    assert_eq!(parse_numbers("a"), None);
    assert_eq!(parse_numbers("1 2"), None);
}

#[test]
fn parse_i64_bounds() {
    assert_eq!(parse_i64("9223372036854775807"), Some(i64::MAX));
    assert_eq!(parse_i64("-9223372036854775808"), Some(i64::MIN));
    assert_eq!(parse_i64("9223372036854775808"), None);
    assert_eq!(parse_i64("-9223372036854775809"), None);
    assert_eq!(parse_i64("99999999999999999999999"), None);
    assert_eq!(parse_i64("-"), None);
    assert_eq!(parse_i64("+"), None);
    assert_eq!(parse_i64("007"), Some(7));
    assert_eq!(parse_i64("-0"), Some(0));
}

#[test]
fn parse_i64_agrees_with_std() {
    for s in ["0", "12", "-3", "+4", "", " 1", "1 ", "--1", "1a", "18446744073709551616", "١"] {
        assert_eq!(parse_i64(s), s.parse::<i64>().ok(), "input {:?}", s);
    }
}

#[test]
fn trim_unicode_whitespace() {
    assert_eq!(trim("  a b \t"), "a b");
    assert_eq!(trim("\u{3000}4\u{00A0}"), "4");
    assert_eq!(trim("   "), "");
    assert_eq!(trim(""), "");
    for s in ["\u{2028}x\u{85}", "\u{200B}y", " z\u{202F}"] {
        assert_eq!(trim(s), s.trim());
    }
    assert!(is_whitespace('\u{1680}'));
    assert!(!is_whitespace('x'));
    assert_eq!(parse_numbers("\u{3000}4,\t5\n"), Some(vec![4, 5]));
}

#[test]
fn path_join_and_absolute() {
    assert!(is_absolute("/a"));
    assert!(!is_absolute("a/b"));
    assert!(!is_absolute(""));
    assert_eq!(join("/a", "b"), "/a/b");
    assert_eq!(join("/a/", "b"), "/a/b");
    assert_eq!(join("/a", "/c"), "/c");
    assert_eq!(join("", "b"), "b");
    assert_eq!(join("/a", ""), "/a/");
}
