use netflix_clone::text::{
    concat2, concat3, decimal_string, str_eq, strip_all_prefixes_str, trim_str,
};

#[test]
fn decimal_of_small_numbers() {
    assert_eq!(decimal_string(0), "0");
    assert_eq!(decimal_string(7), "7");
    assert_eq!(decimal_string(10), "10");
    assert_eq!(decimal_string(-42), "-42");
    assert_eq!(decimal_string(1234567890), "1234567890");
}

#[test]
fn decimal_of_extremes() {
    assert_eq!(decimal_string(i64::MAX), i64::MAX.to_string());
    assert_eq!(decimal_string(i64::MIN), i64::MIN.to_string());
    assert_eq!(decimal_string(-1), "-1");
}

#[test]
fn trim_removes_unicode_whitespace_at_both_ends() {
    assert_eq!(trim_str("  abc \t\n"), "abc");
    assert_eq!(trim_str("\u{3000}a b\u{2009}"), "a b");
    assert_eq!(trim_str("   "), "");
    assert_eq!(trim_str(""), "");
    assert_eq!(trim_str("x"), "x");
}

#[test]
fn trim_agrees_with_std() {
    for s in ["  a  ", "\u{85}b\u{a0}", "\u{1680}c\u{200a}\u{2028}", "d\u{202f}\u{205f}", "\u{200b}e"] {
        assert_eq!(trim_str(s), s.trim());
    }
}

#[test]
fn strip_all_prefixes_removes_every_repetition() {
    assert_eq!(strip_all_prefixes_str("ababx", "ab"), "x");
    assert_eq!(strip_all_prefixes_str("abab", "ab"), "");
    assert_eq!(strip_all_prefixes_str("xab", "ab"), "xab");
    assert_eq!(strip_all_prefixes_str("Bearer Bearer t", "Bearer "), "t");
}

#[test]
fn str_eq_compares_characters() {
    assert!(str_eq("abc", "abc"));
    assert!(!str_eq("abc", "abd"));
    assert!(!str_eq("abc", "ab"));
    assert!(str_eq("", ""));
}

#[test]
fn concatenations() {
    assert_eq!(concat2("a", "bc"), "abc");
    assert_eq!(concat3("a", "", "c"), "ac");
}
