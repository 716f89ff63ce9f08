use parallel_fetch::{parse_u64, str_eq, strip_quotes, u64_to_string};

#[test]
fn parse_u64_reads_digits() {
    assert_eq!(parse_u64("0"), Some(0));
    assert_eq!(parse_u64("10"), Some(10));
    assert_eq!(parse_u64("1024"), Some(1024));
    assert_eq!(parse_u64("007"), Some(7));
}

#[test]
fn parse_u64_rejects_non_digits() {
    assert_eq!(parse_u64(""), None);
    assert_eq!(parse_u64("ten"), None);
    assert_eq!(parse_u64("-1"), None);
    assert_eq!(parse_u64("+1"), None);
    assert_eq!(parse_u64("1 0"), None);
    assert_eq!(parse_u64("10.5"), None);
}

#[test]
fn parse_u64_bounds() {
    assert_eq!(parse_u64("18446744073709551615"), Some(u64::MAX));
    assert_eq!(parse_u64("18446744073709551616"), None);
    assert_eq!(parse_u64("99999999999999999999999"), None);
}

#[test]
fn u64_to_string_writes_digits() {
    assert_eq!(u64_to_string(0), "0".to_owned());
    assert_eq!(u64_to_string(7), "7".to_owned());
    assert_eq!(u64_to_string(1234), "1234".to_owned());
    assert_eq!(u64_to_string(u64::MAX), "18446744073709551615".to_owned());
}

#[test]
fn decimal_round_trip() {
    for n in [0u64, 1, 9, 10, 99, 100, 12345, u64::MAX] {
        assert_eq!(parse_u64(&u64_to_string(n)), Some(n));
    }
}

#[test]
fn str_eq_compares_contents() {
    assert!(str_eq("bytes", "bytes"));
    assert!(!str_eq("bytes", "none"));
    assert!(!str_eq("byte", "bytes"));
    assert!(str_eq("", ""));
}

#[test]
fn strip_quotes_removes_all_quotes() {
    assert_eq!(strip_quotes("\"abc\""), "abc".to_owned());
    assert_eq!(strip_quotes("abc"), "abc".to_owned());
    assert_eq!(strip_quotes("\"\""), "".to_owned());
    assert_eq!(strip_quotes("a\"b\"c"), "abc".to_owned());
}
