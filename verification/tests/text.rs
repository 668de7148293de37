use bareos_mcp::text::{decimal_text, integer_text, is_blank, parse_unsigned, same_text};

#[test]
fn decimal_text_writes_plain_digits() {
    assert_eq!(decimal_text(0), "0");
    assert_eq!(decimal_text(7), "7");
    assert_eq!(decimal_text(10), "10");
    assert_eq!(decimal_text(4294967295), "4294967295");
    assert_eq!(decimal_text(u64::MAX), "18446744073709551615");
}

#[test]
fn integer_text_writes_the_sign_of_a_negative_number() {
    assert_eq!(integer_text(0), "0");
    assert_eq!(integer_text(24), "24");
    assert_eq!(integer_text(-1), "-1");
    assert_eq!(integer_text(-32601), "-32601");
    assert_eq!(integer_text(-32000), "-32000");
    assert_eq!(integer_text(i64::MAX), "9223372036854775807");
    assert_eq!(integer_text(i64::MIN), "-9223372036854775808");
}

#[test]
fn parse_unsigned_reads_digits_only() {
    assert_eq!(parse_unsigned("24"), Some(24));
    assert_eq!(parse_unsigned("0"), Some(0));
    assert_eq!(parse_unsigned("007"), Some(7));
    assert_eq!(parse_unsigned(""), None);
    assert_eq!(parse_unsigned("-1"), None);
    assert_eq!(parse_unsigned("+1"), None);
    assert_eq!(parse_unsigned("1.5"), None);
    assert_eq!(parse_unsigned("1e3"), None);
    assert_eq!(parse_unsigned(" 1"), None);
    assert_eq!(parse_unsigned("12a"), None);
    assert_eq!(parse_unsigned("\u{663}"), None);
}

#[test]
fn parse_unsigned_stops_at_64_bits() {
    assert_eq!(parse_unsigned("18446744073709551615"), Some(u64::MAX));
    assert_eq!(parse_unsigned("18446744073709551616"), None);
    assert_eq!(parse_unsigned("18446744073709551620"), None);
    assert_eq!(parse_unsigned("99999999999999999999"), None);
    assert_eq!(parse_unsigned("184467440737095516150"), None);
    assert_eq!(parse_unsigned("00018446744073709551615"), Some(u64::MAX));
}

#[test]
fn reading_back_what_was_written_gives_the_number() {
    for n in [0u64, 1, 9, 10, 99, 100, 4294967295, 4294967296, u64::MAX - 1, u64::MAX] {
        assert_eq!(parse_unsigned(&decimal_text(n)), Some(n));
    }
}

#[test]
fn a_line_of_white_space_is_blank() {
    assert!(is_blank(""));
    assert!(is_blank("   "));
    assert!(is_blank("\t\r\n"));
    assert!(is_blank("\u{a0}\u{2003}"));
    assert!(!is_blank("x"));
    assert!(!is_blank("  {}  "));
    assert!(!is_blank("\u{200b}"));
}

#[test]
fn same_text_compares_characters() {
    assert!(same_text("tools/call", "tools/call"));
    assert!(!same_text("tools/call", "tools/list"));
    assert!(!same_text("tools/call", "tools/cal"));
    assert!(same_text("", ""));
}
