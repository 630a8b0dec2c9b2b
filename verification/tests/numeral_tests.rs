use rpbrt::numeral::is_decimal;
use rpbrt::numeral::parse_u32;

#[test]
fn parse_u32_reads_plain_numerals() {
    assert_eq!(parse_u32("0"), Some(0));
    assert_eq!(parse_u32("8"), Some(8));
    assert_eq!(parse_u32("007"), Some(7));
    assert_eq!(parse_u32("4294967295"), Some(u32::MAX));
}

#[test]
fn parse_u32_rejects_non_numerals() {
    assert_eq!(parse_u32(""), None);
    assert_eq!(parse_u32("12a"), None);
    assert_eq!(parse_u32("-3"), None);
    assert_eq!(parse_u32("1.0"), None);
    assert_eq!(parse_u32(" 4"), None);
}

#[test]
fn parse_u32_rejects_values_out_of_range() {
    assert_eq!(parse_u32("4294967296"), None);
    assert_eq!(parse_u32("99999999999999999999"), None);
}

#[test]
fn is_decimal_accepts_plain_and_pointed_numerals() {
    assert!(is_decimal("1.0"));
    assert!(is_decimal("0.25"));
    assert!(is_decimal("2"));
    assert!(is_decimal("007"));
    assert!(is_decimal("10.125"));
}

#[test]
fn is_decimal_rejects_other_text() {
    assert!(!is_decimal(""));
    assert!(!is_decimal("."));
    assert!(!is_decimal(".5"));
    assert!(!is_decimal("1."));
    assert!(!is_decimal("1.2.3"));
    assert!(!is_decimal("-1.0"));
    assert!(!is_decimal("1e3"));
    assert!(!is_decimal("one"));
}
