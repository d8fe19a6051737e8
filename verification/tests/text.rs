use gdal::text::{decimal_string, parse_i32, parse_i64, str_has_char};

#[test]
fn decimal_strings() {
    assert_eq!(decimal_string(0), "0");
    assert_eq!(decimal_string(1234567890), "1234567890");
    assert_eq!(decimal_string(u64::MAX), "18446744073709551615");
}

#[test]
fn parse_integers_like_from_str() {
    assert_eq!(parse_i64("42"), Some(42));
    assert_eq!(parse_i64("-42"), Some(-42));
    assert_eq!(parse_i64("+7"), Some(7));
    assert_eq!(parse_i64("007"), Some(7));
    assert_eq!(parse_i64("9223372036854775807"), Some(i64::MAX));
    assert_eq!(parse_i64("-9223372036854775808"), Some(i64::MIN));
    assert_eq!(parse_i64("9223372036854775808"), None);
    assert_eq!(parse_i64(""), None);
    assert_eq!(parse_i64("-"), None);
    assert_eq!(parse_i64(" 1"), None);
    assert_eq!(parse_i64("1a"), None);
    assert_eq!(parse_i32("4326"), Some(4326));
    assert_eq!(parse_i32("2147483648"), None);
    assert_eq!(parse_i32("-2147483648"), Some(i32::MIN));
}

#[test]
fn decimal_reads_back() {
    for n in [0u64, 9, 10, 4326, 1 << 40] {
        assert_eq!(parse_i64(&decimal_string(n)), Some(n as i64));
    }
}

#[test]
fn has_char() {
    assert!(str_has_char("a=b", '='));
    assert!(!str_has_char("ab", '='));
}
