use quote_scraper::decimal::Decimal;
use quote_scraper::normalize::{de_float_from_str, NormalizeError};

fn d(mantissa: u64, scale: u32) -> Decimal {
    Decimal { mantissa, scale }
}

#[test]
fn parses_whole_number() {
    assert_eq!(Decimal::parse(b"2"), Some(d(2, 0)));
    assert_eq!(Decimal::parse(b"0"), Some(d(0, 0)));
}

#[test]
fn parses_fraction() {
    assert_eq!(Decimal::parse(b"100.5"), Some(d(1005, 1)));
    assert_eq!(Decimal::parse(b"101.0"), Some(d(1010, 1)));
    assert_eq!(Decimal::parse(b"0.00012"), Some(d(12, 5)));
}

#[test]
fn rejects_malformed_text() {
    for text in ["", "-1", ".", "+", "+.", "++1", "1+", "1.2.3", "abc", "1 2", "NaN", "inf"] {
        assert_eq!(Decimal::parse(text.as_bytes()), None, "{}", text);
    }
}

#[test]
fn digit_limit_is_eighteen() {
    assert_eq!(Decimal::parse(b"999999999999999999"), Some(d(999_999_999_999_999_999, 0)));
    assert_eq!(Decimal::parse(b"1234567890.12345678"), Some(d(123_456_789_012_345_678, 8)));
    assert_eq!(Decimal::parse(b"1000000000000000000"), None);
    assert_eq!(Decimal::parse(b"0.0000000000000000001"), None);
}

#[test]
fn halves_even_mantissa_in_place() {
    assert_eq!(d(10, 0).half(), d(5, 0));
    assert_eq!(d(1010, 1).half(), d(505, 1));
}

#[test]
fn halves_odd_mantissa_one_place_right() {
    assert_eq!(d(3, 0).half(), d(15, 1));
    assert_eq!(d(1005, 1).half(), d(5025, 2));
}

#[test]
fn de_float_from_str_reads_strings() {
    assert_eq!(de_float_from_str(b"64000.25"), Ok(d(6400025, 2)));
    assert_eq!(de_float_from_str(b""), Err(NormalizeError::NotNumeric));
    assert_eq!(de_float_from_str(b"n/a"), Err(NormalizeError::NotNumeric));
}

#[test]
fn parses_exponent_notation() {
    assert_eq!(Decimal::parse(b"1e3"), Some(d(1000, 0)));
    assert_eq!(Decimal::parse(b"2.0149E8"), Some(d(201_490_000, 0)));
    assert_eq!(Decimal::parse(b"15E-1"), Some(d(15, 1)));
    assert_eq!(Decimal::parse(b"1.5e+2"), Some(d(150, 0)));
    assert_eq!(Decimal::parse(b"1e-18"), Some(d(1, 18)));
    assert_eq!(Decimal::parse(b"1e17"), Some(d(100_000_000_000_000_000, 0)));
    assert_eq!(Decimal::parse(b"0e999"), Some(d(0, 0)));
}

#[test]
fn rejects_exponent_out_of_bounds_or_malformed() {
    for text in ["1e-19", "1e18", "1e1000", "1e", "1e+", "e5", "1.5e2.0", "1e+-2", ".e2", "1ee2"] {
        assert_eq!(Decimal::parse(text.as_bytes()), None, "{}", text);
    }
}

#[test]
fn accepts_sign_and_bare_point_forms() {
    assert_eq!(Decimal::parse(b".5"), Some(d(5, 1)));
    assert_eq!(Decimal::parse(b"5."), Some(d(5, 0)));
    assert_eq!(Decimal::parse(b"+5"), Some(d(5, 0)));
    assert_eq!(Decimal::parse(b"+.25"), Some(d(25, 2)));
    assert_eq!(Decimal::parse(b"1.e2"), Some(d(100, 0)));
    assert_eq!(Decimal::parse(b".5E1"), Some(d(5, 0)));
}
