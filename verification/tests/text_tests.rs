use backend::text::{
    eq_ignore_case, i64_to_decimal, parse_i64, parse_u16, joined, str_eq, strip_prefix,
    to_chars, u64_to_decimal,
};

#[test]
fn decimal_of_unsigned_numbers() {
    assert_eq!(u64_to_decimal(0), "0");
    assert_eq!(u64_to_decimal(7), "7");
    assert_eq!(u64_to_decimal(10), "10");
    assert_eq!(u64_to_decimal(8000), "8000");
    assert_eq!(u64_to_decimal(u64::MAX), "18446744073709551615");
}

#[test]
fn decimal_of_signed_numbers() {
    assert_eq!(i64_to_decimal(0), "0");
    assert_eq!(i64_to_decimal(583231), "583231");
    assert_eq!(i64_to_decimal(-42), "-42");
    assert_eq!(i64_to_decimal(i64::MAX), "9223372036854775807");
    assert_eq!(i64_to_decimal(i64::MIN), "-9223372036854775808");
}

#[test]
fn decimal_agrees_with_the_standard_formatting() {
    for n in [0u64, 1, 9, 10, 99, 100, 12345, 65535, 1 << 40] {
        assert_eq!(u64_to_decimal(n), n.to_string());
    }
    for n in [0i64, -1, 1, -10, 10, -65536, i64::MIN + 1] {
        assert_eq!(i64_to_decimal(n), n.to_string());
    }
}

#[test]
fn parse_u16_reads_what_the_standard_parser_reads() {
    for text in ["0", "8000", "65535", "65536", "+1", "+", "", "-1", "-0", "12a", " 12", "00012", "99999999999999999999999"] {
        assert_eq!(parse_u16(text), text.parse::<u16>().ok(), "{:?}", text);
    }
}

#[test]
fn parse_i64_reads_what_the_standard_parser_reads() {
    for text in [
        "0", "86400", "-86400", "+86400", "9223372036854775807", "9223372036854775808",
        "-9223372036854775808", "-9223372036854775809", "-", "+", "", "--1", "+-1", "1_000", "٣",
        "-0", "0000000000000000000000001",
    ] {
        assert_eq!(parse_i64(text), text.parse::<i64>().ok(), "{:?}", text);
    }
}

#[test]
fn parse_gives_exact_values() {
    assert_eq!(parse_u16("443"), Some(443));
    assert_eq!(parse_i64("-3600"), Some(-3600));
    assert_eq!(parse_u16("http"), None);
}

#[test]
fn case_is_ignored_for_ascii_letters_only() {
    assert!(eq_ignore_case("Alice@Example.COM", "alice@example.com"));
    assert!(eq_ignore_case("", ""));
    assert!(!eq_ignore_case("alice@example.com", "alice@example.org"));
    assert!(!eq_ignore_case("alice", "alice "));
    assert!(!eq_ignore_case("É", "é"));
    assert!(!eq_ignore_case("[", "{"));
    assert!(!eq_ignore_case("@", "`"));
}

#[test]
fn strip_prefix_returns_what_follows() {
    assert_eq!(strip_prefix("Bearer abc.def", "Bearer "), Some("abc.def".to_string()));
    assert_eq!(strip_prefix("Bearer ", "Bearer "), Some(String::new()));
    assert_eq!(strip_prefix("bearer abc", "Bearer "), None);
    assert_eq!(strip_prefix("Bear", "Bearer "), None);
    assert_eq!(strip_prefix("anything", ""), Some("anything".to_string()));
}

#[test]
fn the_chars_of_a_text() {
    assert_eq!(to_chars("héllo"), vec!['h', 'é', 'l', 'l', 'o']);
    assert_eq!(to_chars(""), Vec::<char>::new());
}

#[test]
fn joining_and_equality() {
    assert_eq!(joined("ab", "cd"), "abcd");
    assert_eq!(joined("", ""), "");
    assert!(str_eq("abc", "abc"));
    assert!(!str_eq("abc", "abd"));
    assert!(!str_eq("abc", "ABC"));
}
