use mutter::text::{ends_with, parse_i64, starts_with, str_eq};

#[test]
fn parse_i64_accepts_signed_decimals() {
    assert_eq!(parse_i64("0"), Some(0));
    assert_eq!(parse_i64("+17"), Some(17));
    assert_eq!(parse_i64("-17"), Some(-17));
    assert_eq!(parse_i64("9223372036854775807"), Some(i64::MAX));
    assert_eq!(parse_i64("-9223372036854775808"), Some(i64::MIN));
    for s in ["", "-", "+", " 1", "1 ", "1.0", "0x10", "9223372036854775808", "-9223372036854775809", "99999999999999999999999"] {
        assert_eq!(parse_i64(s), s.parse::<i64>().ok(), "{}", s);
    }
}

#[test]
fn prefixes_and_suffixes() {
    assert!(starts_with("card0-eDP-1", "card"));
    assert!(!starts_with("car", "card"));
    assert!(ends_with("card0-eDP-1", "-eDP-1"));
    assert!(!ends_with("card0-eDP-1", "-DP-1x"));
    assert!(str_eq("é", "é"));
    assert!(!str_eq("a", "ab"));
}
