use ticket_api::text::{contains, i64_to_decimal, parse_i64, starts_with, strip_prefix};

#[test]
fn decimal_text_of_numbers() {
    assert_eq!(i64_to_decimal(0), "0");
    assert_eq!(i64_to_decimal(7), "7");
    assert_eq!(i64_to_decimal(1234567890), "1234567890");
    assert_eq!(i64_to_decimal(-42), "-42");
    assert_eq!(i64_to_decimal(i64::MAX), "9223372036854775807");
    assert_eq!(i64_to_decimal(i64::MIN), "-9223372036854775808");
}

#[test]
fn parse_reads_what_the_standard_library_reads() {
    let cases = [
        "", "0", "-0", "+0", "7", "007", "-42", "+42", "+", "-", "+-5", " 5", "5 ", "1_000", "12a",
        "9223372036854775807", "9223372036854775808", "-9223372036854775808",
        "-9223372036854775809", "000000000000000000000000000000000000012", "٣", "1٣",
        "99999999999999999999999999999999999999999999",
    ];
    for case in cases {
        assert_eq!(parse_i64(case), case.parse::<i64>().ok(), "{:?}", case);
    }
}

#[test]
fn parse_inverts_decimal_text() {
    for n in [0, 1, -1, 10, -10, 99, 100, 4711, i64::MAX, i64::MIN] {
        assert_eq!(parse_i64(&i64_to_decimal(n)), Some(n));
        assert_eq!(i64_to_decimal(n), n.to_string());
    }
}

#[test]
fn prefix_and_search() {
    assert!(starts_with("Bearer abc", "Bearer "));
    assert!(!starts_with("bearer abc", "Bearer "));
    assert!(!starts_with("Bear", "Bearer "));
    assert!(starts_with("anything", ""));
    assert!(contains("Error 1062: Duplicate entry 'x' for key", "Duplicate entry"));
    assert!(!contains("Error 1452: foreign key constraint fails", "Duplicate entry"));
    assert!(contains("abc", ""));
    assert!(contains("", ""));
    assert!(!contains("", "a"));
    assert!(contains("grüße Duplicate entry", "Duplicate entry"));
}

#[test]
fn prefix_is_cut_off() {
    assert_eq!(strip_prefix("Bearer abc", "Bearer "), Some("abc".to_string()));
    assert_eq!(strip_prefix("Bearer ", "Bearer "), Some(String::new()));
    assert_eq!(strip_prefix("grüße", "grü"), Some("ße".to_string()));
    assert_eq!(strip_prefix("abc", ""), Some("abc".to_string()));
    assert_eq!(strip_prefix("Bear", "Bearer "), None);
    assert_eq!(strip_prefix("bearer abc", "Bearer "), None);
    for (text, prefix) in [("abc", "ab"), ("abc", "abc"), ("abc", "abcd"), ("", ""), ("äö", "ä")] {
        assert_eq!(strip_prefix(text, prefix), text.strip_prefix(prefix).map(str::to_owned));
        assert_eq!(starts_with(text, prefix), text.starts_with(prefix));
    }
}
