use job_agent::text::{
    char_is_control, char_is_whitespace, chars_end_with, i64_to_decimal, is_blank,
    str_eq_ignore_ascii_case, str_equal, str_skip, str_starts_with, trim_str, u64_to_decimal,
};

#[test]
fn trim_removes_unicode_whitespace_at_both_ends() {
    assert_eq!(trim_str("  hello world \t\n"), "hello world");
    assert_eq!(trim_str("\u{3000}x\u{a0}"), "x");
    assert_eq!(trim_str("   "), "");
    assert_eq!(trim_str(""), "");
    assert_eq!(trim_str("a b"), "a b");
}

#[test]
fn trim_agrees_with_std_and_is_idempotent() {
    for s in ["  a ", "\u{2003}b\u{2028}", "\r\n c\u{85}", "plain", " \u{200b} "] {
        let once = trim_str(s);
        assert_eq!(once, s.trim());
        assert_eq!(trim_str(&once), once);
    }
}

#[test]
fn whitespace_and_control_classes() {
    for c in [' ', '\t', '\n', '\u{b}', '\u{c}', '\r', '\u{85}', '\u{a0}', '\u{1680}', '\u{2000}', '\u{200a}', '\u{2028}', '\u{2029}', '\u{202f}', '\u{205f}', '\u{3000}'] {
        assert!(char_is_whitespace(c));
        assert_eq!(char_is_whitespace(c), c.is_whitespace());
    }
    for c in ['a', '\u{200b}', '\u{180e}', '-'] {
        assert_eq!(char_is_whitespace(c), c.is_whitespace());
    }
    for c in ['\0', '\u{1f}', '\u{7f}', '\u{9f}', 'a', ' ', '\u{a0}'] {
        assert_eq!(char_is_control(c), c.is_control());
    }
}

#[test]
fn blank_strings() {
    assert!(is_blank(" \t "));
    assert!(is_blank(""));
    assert!(!is_blank(" x "));
}

#[test]
fn ascii_case_insensitive_equality() {
    assert!(str_eq_ignore_ascii_case("SiliconFlow", "siliconflow"));
    assert!(str_eq_ignore_ascii_case("OK", "ok"));
    assert!(!str_eq_ignore_ascii_case("ok", "okay"));
    assert!(!str_eq_ignore_ascii_case("Ä", "ä"));
    assert!(str_eq_ignore_ascii_case("", ""));
}

#[test]
fn decimal_notation() {
    assert_eq!(u64_to_decimal(0), "0");
    assert_eq!(u64_to_decimal(1725029869), "1725029869");
    assert_eq!(u64_to_decimal(u64::MAX), u64::MAX.to_string());
    assert_eq!(i64_to_decimal(-42), "-42");
    assert_eq!(i64_to_decimal(i64::MIN), i64::MIN.to_string());
    assert_eq!(i64_to_decimal(7), "7");
}

#[test]
fn prefixes_suffixes_and_equality() {
    assert!(str_starts_with("--db-path=x", "--db-path="));
    assert!(!str_starts_with("--db", "--db-path="));
    assert_eq!(str_skip("--db-path=x.db", 10), "x.db");
    assert!(str_equal("get", "get"));
    assert!(!str_equal("get", "Get"));
    let a: Vec<char> = "abc/v1".chars().collect();
    let b: Vec<char> = "/v1".chars().collect();
    assert!(chars_end_with(&a, &b));
    assert!(!chars_end_with(&b, &a));
}
