//! Tests for parsing a status word from its textual form.

use ap_ro_errs::parse_arg;

#[test]
fn test_parse_decimal() {
    assert_eq!(parse_arg("0"), Some(0));
    assert_eq!(parse_arg("42"), Some(42));
    assert_eq!(parse_arg("+42"), Some(42));
    assert_eq!(parse_arg("4294967295"), Some(u32::MAX));
    assert_eq!(parse_arg("0000000000000042"), Some(42));
}

#[test]
fn test_parse_negative_decimal_wraps() {
    assert_eq!(parse_arg("-1"), Some(0xFFFF_FFFF));
    assert_eq!(parse_arg("-2147483648"), Some(0x8000_0000));
    assert_eq!(parse_arg("-0"), Some(0));
    assert_eq!(parse_arg("-2147483649"), None);
}

#[test]
fn test_parse_hex_prefixes() {
    assert_eq!(parse_arg("0xFFFFF000"), Some(0xFFFF_F000));
    assert_eq!(parse_arg("0xfffff000"), Some(0xFFFF_F000));
    assert_eq!(parse_arg("x1A"), Some(0x1A));
    assert_eq!(parse_arg("0x0"), Some(0));
    // A hex prefix forces hex: the rest must be valid hex digits.
    assert_eq!(parse_arg("0x"), None);
    assert_eq!(parse_arg("x"), None);
    assert_eq!(parse_arg("0xG1"), None);
}

#[test]
fn test_parse_bare_hex_fallback() {
    // Not valid decimal, so parsed as hex.
    assert_eq!(parse_arg("ff"), Some(0xFF));
    assert_eq!(parse_arg("abc"), Some(0xABC));
    assert_eq!(parse_arg("1A2B"), Some(0x1A2B));
    // Valid decimal stays decimal even though it looks like hex too.
    assert_eq!(parse_arg("10"), Some(10));
}

#[test]
fn test_parse_rejects_garbage() {
    assert_eq!(parse_arg(""), None);
    assert_eq!(parse_arg("zzz"), None);
    assert_eq!(parse_arg("12 34"), None);
    assert_eq!(parse_arg(" 12"), None);
    assert_eq!(parse_arg("1_000"), None);
    assert_eq!(parse_arg("--1"), None);
    assert_eq!(parse_arg("héx"), None);
    // Too large for 32 bits in every base.
    assert_eq!(parse_arg("4294967296"), None);
    assert_eq!(parse_arg("0x100000000"), None);
    assert_eq!(parse_arg("99999999999999999999"), None);
}
