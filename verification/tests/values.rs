//! Decimal parsing, quotation values and ceiling division.

use better_call_put::models::structs::{parse_decimal_i64, Quotation};
use better_call_put::num::{ceil_div_i64, max_i64};

#[test]
fn parses_plain_decimals() {
    assert_eq!(parse_decimal_i64("123"), Some(123));
    assert_eq!(parse_decimal_i64("0"), Some(0));
    assert_eq!(parse_decimal_i64("-45"), Some(-45));
    assert_eq!(parse_decimal_i64("+7"), Some(7));
    assert_eq!(parse_decimal_i64("007"), Some(7));
}

#[test]
fn rejects_malformed_decimals() {
    assert_eq!(parse_decimal_i64(""), None);
    assert_eq!(parse_decimal_i64("-"), None);
    assert_eq!(parse_decimal_i64("+"), None);
    assert_eq!(parse_decimal_i64("12a"), None);
    assert_eq!(parse_decimal_i64("1.5"), None);
    assert_eq!(parse_decimal_i64(" 1"), None);
    assert_eq!(parse_decimal_i64("--1"), None);
}

#[test]
fn parses_exactly_the_i64_range() {
    assert_eq!(parse_decimal_i64("9223372036854775807"), Some(i64::MAX));
    assert_eq!(parse_decimal_i64("9223372036854775808"), None);
    assert_eq!(parse_decimal_i64("-9223372036854775808"), Some(i64::MIN));
    assert_eq!(parse_decimal_i64("-9223372036854775809"), None);
    assert_eq!(parse_decimal_i64("99999999999999999999999999999999999999"), None);
}

#[test]
fn quotation_combines_units_and_nanos() {
    let q = Quotation { units: "1".to_string(), nano: 500_000_000 };
    assert_eq!(q.to_nano(), 1_500_000_000);
    let q = Quotation { units: "-2".to_string(), nano: -250_000_000 };
    assert_eq!(q.to_nano(), -2_250_000_000);
    let q = Quotation { units: "0".to_string(), nano: 42 };
    assert_eq!(q.to_nano(), 42);
}

#[test]
fn quotation_malformed_units_count_as_zero() {
    let q = Quotation { units: "abc".to_string(), nano: 250 };
    assert_eq!(q.to_nano(), 250);
    let q = Quotation { units: String::new(), nano: -7 };
    assert_eq!(q.to_nano(), -7);
}

#[test]
fn quotation_saturates_at_i64() {
    let q = Quotation { units: "9223372036854775806".to_string(), nano: 999_999_999 };
    assert_eq!(q.to_nano(), i64::MAX);
    let q = Quotation { units: "-9223372036854775807".to_string(), nano: -999_999_999 };
    assert_eq!(q.to_nano(), i64::MIN);
}

#[test]
fn ceiling_division_rounds_toward_positive() {
    assert_eq!(ceil_div_i64(7, 2), 4);
    assert_eq!(ceil_div_i64(8, 2), 4);
    assert_eq!(ceil_div_i64(0, 5), 0);
    assert_eq!(ceil_div_i64(-7, 2), -3);
    assert_eq!(ceil_div_i64(-8, 2), -4);
    assert_eq!(ceil_div_i64(1, 1440), 1);
    assert_eq!(ceil_div_i64(i64::MAX, 1), i64::MAX);
    assert_eq!(ceil_div_i64(i64::MIN, 3), -3074457345618258602);
    assert_eq!(max_i64(3, -5), 3);
}
