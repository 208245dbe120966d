use oss_emulator::text::{format_i64, format_u64, lowercase_ascii, parse_i32, parse_i64, str_contains, str_less, str_starts_with};

#[test]
fn integers_read_as_rust_reads_them() {
    assert_eq!(parse_i64("42"), Some(42));
    assert_eq!(parse_i64("+7"), Some(7));
    assert_eq!(parse_i64("-13"), Some(-13));
    assert_eq!(parse_i64("0007"), Some(7));
    assert_eq!(parse_i64("-9223372036854775808"), Some(i64::MIN));
    assert_eq!(parse_i64("9223372036854775807"), Some(i64::MAX));
    assert_eq!(parse_i64("9223372036854775808"), None);
    assert_eq!(parse_i64(""), None);
    assert_eq!(parse_i64("-"), None);
    assert_eq!(parse_i64("+"), None);
    assert_eq!(parse_i64("1 "), None);
    assert_eq!(parse_i64("1e3"), None);
}

#[test]
fn small_integers() {
    assert_eq!(parse_i32("2147483647"), Some(i32::MAX));
    assert_eq!(parse_i32("2147483648"), None);
    assert_eq!(parse_i32("-2147483648"), Some(i32::MIN));
    assert_eq!(parse_i32("abc"), None);
}

#[test]
fn integers_written_in_decimal() {
    assert_eq!(format_u64(0), "0");
    assert_eq!(format_u64(1234567890), "1234567890");
    assert_eq!(format_u64(u64::MAX), "18446744073709551615");
    assert_eq!(format_i64(-5), "-5");
    assert_eq!(format_i64(i64::MIN), "-9223372036854775808");
    assert_eq!(format_i64(i64::MAX), i64::MAX.to_string());
}

#[test]
fn byte_order_of_texts() {
    assert!(str_less("a", "b"));
    assert!(str_less("a", "ab"));
    assert!(!str_less("b", "a"));
    assert!(!str_less("same", "same"));
    assert!(str_less("Z", "a"));
    assert!(str_less("z", "é"));
}

#[test]
fn searching_texts() {
    assert!(str_starts_with("bytes=1-2", "bytes="));
    assert!(!str_starts_with("byte", "bytes="));
    assert!(str_contains("gzip, chunked", "chunked"));
    assert!(!str_contains("gzip", "chunked"));
}

#[test]
fn header_names_in_lowercase() {
    assert_eq!(lowercase_ascii("Content-Type"), "content-type");
    assert_eq!(lowercase_ascii("X-OSS-ACL"), "x-oss-acl");
    assert_eq!(lowercase_ascii("already"), "already");
}
