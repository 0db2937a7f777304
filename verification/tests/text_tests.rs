use pdf_analyzer::text::fmt_cents;
use pdf_analyzer::text::fmt_u64;
use pdf_analyzer::text::fmt_usize;
use pdf_analyzer::text::str_eq;

#[test]
fn decimal_rendering_of_small_numbers() {
    assert_eq!(fmt_u64(0), "0");
    assert_eq!(fmt_u64(7), "7");
    assert_eq!(fmt_u64(9), "9");
    assert_eq!(fmt_u64(10), "10");
}

#[test]
fn decimal_rendering_of_larger_numbers() {
    assert_eq!(fmt_u64(123), "123");
    assert_eq!(fmt_u64(1000), "1000");
    assert_eq!(fmt_u64(18446744073709551615), "18446744073709551615");
    assert_eq!(fmt_usize(10), "10");
}

#[test]
fn cents_rendering_uses_two_decimal_places() {
    assert_eq!(fmt_cents(0), "0.00");
    assert_eq!(fmt_cents(5), "0.05");
    assert_eq!(fmt_cents(20), "0.20");
    assert_eq!(fmt_cents(30), "0.30");
    assert_eq!(fmt_cents(50), "0.50");
    assert_eq!(fmt_cents(123456), "1234.56");
}

#[test]
fn string_equality_compares_contents() {
    assert!(str_eq("abc", "abc"));
    assert!(!str_eq("abc", "abd"));
    assert!(!str_eq("abc", "abcd"));
    assert!(str_eq("", ""));
}
