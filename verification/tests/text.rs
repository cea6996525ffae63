use kehrkraft::text::{decimal_string, parse_unsigned, str_lt, trim};

#[test]
fn trimming_and_parsing() {
    assert_eq!(trim("  a b \n"), "a b");
    assert_eq!(trim("\u{3000}x\u{a0}"), "x");
    assert_eq!(parse_unsigned("42", 100), Some(42));
    assert_eq!(parse_unsigned("+42", 100), Some(42));
    assert_eq!(parse_unsigned("101", 100), None);
    assert_eq!(parse_unsigned("4 2", 100), None);
    assert_eq!(parse_unsigned("+", 100), None);
    assert_eq!(parse_unsigned("18446744073709551615", u64::MAX), Some(u64::MAX));
    assert_eq!(parse_unsigned("18446744073709551616", u64::MAX), None);
    assert_eq!(decimal_string(0), "0");
    assert_eq!(decimal_string(1234), "1234");
}

#[test]
fn string_order_is_code_point_order() {
    assert!(str_lt("a", "b"));
    assert!(str_lt("a", "ab"));
    assert!(!str_lt("b", "ab"));
    assert!(!str_lt("x", "x"));
    assert!(str_lt("Z", "a"));
}

#[test]
fn strings_compare_by_their_characters() {
    assert!(kehrkraft::text::str_eq("Küche", "Küche"));
    assert!(!kehrkraft::text::str_eq("abc", "abd"));
    assert!(!kehrkraft::text::str_eq("ab", "abc"));
    assert!(kehrkraft::text::str_eq("", ""));
}
