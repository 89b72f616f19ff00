use content_backend::clock::{code_expiry, token_expiry, CODE_TTL_SECONDS, TOKEN_TTL_SECONDS};
use content_backend::sql::join;
use content_backend::store::memory::contains_text;
use content_backend::text::{i64_to_string, parse_i64};

#[test]
fn decimal_text_of_small_numbers() {
    assert_eq!(i64_to_string(0), "0");
    assert_eq!(i64_to_string(7), "7");
    assert_eq!(i64_to_string(10), "10");
    assert_eq!(i64_to_string(42), "42");
    assert_eq!(i64_to_string(-1), "-1");
    assert_eq!(i64_to_string(-305), "-305");
}

#[test]
fn decimal_text_of_the_extremes() {
    assert_eq!(i64_to_string(i64::MAX), "9223372036854775807");
    assert_eq!(i64_to_string(i64::MIN), "-9223372036854775808");
}

#[test]
fn decimal_text_matches_the_standard_library() {
    for n in [0i64, 1, 9, 10, 99, 100, 12345, -12345, 1_000_000_007, i64::MAX, i64::MIN] {
        assert_eq!(i64_to_string(n), format!("{}", n));
    }
}

#[test]
fn parse_accepts_plain_and_signed_decimals() {
    assert_eq!(parse_i64("0"), Some(0));
    assert_eq!(parse_i64("42"), Some(42));
    assert_eq!(parse_i64("+42"), Some(42));
    assert_eq!(parse_i64("-42"), Some(-42));
    assert_eq!(parse_i64("-0"), Some(0));
    assert_eq!(parse_i64("007"), Some(7));
}

#[test]
fn parse_accepts_the_extremes() {
    assert_eq!(parse_i64("9223372036854775807"), Some(i64::MAX));
    assert_eq!(parse_i64("-9223372036854775808"), Some(i64::MIN));
    assert_eq!(parse_i64("0000000000000000000000009223372036854775807"), Some(i64::MAX));
}

#[test]
fn parse_refuses_what_does_not_fit() {
    assert_eq!(parse_i64("9223372036854775808"), None);
    assert_eq!(parse_i64("-9223372036854775809"), None);
    assert_eq!(parse_i64("99999999999999999999999"), None);
}

#[test]
fn parse_refuses_malformed_text() {
    assert_eq!(parse_i64(""), None);
    assert_eq!(parse_i64("-"), None);
    assert_eq!(parse_i64("+"), None);
    assert_eq!(parse_i64(" 1"), None);
    assert_eq!(parse_i64("1 "), None);
    assert_eq!(parse_i64("12a"), None);
    assert_eq!(parse_i64("--1"), None);
    assert_eq!(parse_i64("1.0"), None);
    assert_eq!(parse_i64("١٢"), None);
}

#[test]
fn parse_agrees_with_the_standard_library() {
    for s in ["0", "-0", "+0", "17", "-17", "+17", "", "-", "x", "9223372036854775808", "00"] {
        assert_eq!(parse_i64(s), s.parse::<i64>().ok());
    }
}

#[test]
fn parse_gives_back_what_was_rendered() {
    for n in [0i64, 5, -5, 1234567890123, i64::MAX, i64::MIN] {
        assert_eq!(parse_i64(&i64_to_string(n)), Some(n));
    }
}

#[test]
fn code_expires_thirty_minutes_later() {
    assert_eq!(CODE_TTL_SECONDS, 1800);
    assert_eq!(code_expiry(0), Some(1800));
    assert_eq!(code_expiry(1_700_000_000), Some(1_700_001_800));
    assert_eq!(code_expiry(-1800), Some(0));
}

#[test]
fn code_expiry_that_does_not_fit() {
    assert_eq!(code_expiry(i64::MAX), None);
    assert_eq!(code_expiry(i64::MAX - 1799), None);
    assert_eq!(code_expiry(i64::MAX - 1800), Some(i64::MAX));
}

#[test]
fn token_expires_a_day_later() {
    assert_eq!(TOKEN_TTL_SECONDS, 86400);
    assert_eq!(token_expiry(0), Some(86400));
    assert_eq!(token_expiry(1_700_000_000), Some(1_700_086_400));
    assert_eq!(token_expiry(i64::MAX - 86399), None);
}

#[test]
fn join_puts_the_separator_between_neighbours() {
    assert_eq!(join(&vec![], ", "), "");
    assert_eq!(join(&vec!["a"], ", "), "a");
    assert_eq!(join(&vec!["a", "b"], ", "), "a, b");
    assert_eq!(join(&vec!["title = ?", "content = ?", "status = ?"], ", "),
        "title = ?, content = ?, status = ?");
    assert_eq!(join(&vec!["", ""], "-"), "-");
}

#[test]
fn contains_text_finds_runs_of_characters() {
    assert!(contains_text("", ""));
    assert!(contains_text("", "abc"));
    assert!(contains_text("abc", "abc"));
    assert!(contains_text("bc", "abc"));
    assert!(contains_text("ab", "abc"));
    assert!(contains_text("b", "abc"));
    assert!(contains_text("标识", "应用标识已存在"));
    assert!(!contains_text("abcd", "abc"));
    assert!(!contains_text("ac", "abc"));
    assert!(!contains_text("x", ""));
    assert!(!contains_text("B", "abc"));
}
