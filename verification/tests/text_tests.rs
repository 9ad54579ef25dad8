use cointable::text::{dec_string, percent_string};

#[test]
fn decimal_zero() {
    assert_eq!(dec_string(0), "0");
}

#[test]
fn decimal_single_digit() {
    assert_eq!(dec_string(7), "7");
}

#[test]
fn decimal_many_digits() {
    assert_eq!(dec_string(12345), "12345");
    assert_eq!(dec_string(900000000000), "900000000000");
}

#[test]
fn decimal_largest() {
    assert_eq!(
        dec_string(u128::MAX),
        "340282366920938463463374607431768211455"
    );
}

#[test]
fn percent_positive() {
    assert_eq!(percent_string(25), "+2.5%");
    assert_eq!(percent_string(52), "+5.2%");
    assert_eq!(percent_string(1234), "+123.4%");
}

#[test]
fn percent_negative() {
    assert_eq!(percent_string(-3), "-0.3%");
    assert_eq!(percent_string(-31), "-3.1%");
}

#[test]
fn percent_zero() {
    assert_eq!(percent_string(0), "0.0%");
}

#[test]
fn percent_extremes() {
    assert_eq!(percent_string(i64::MIN), "-922337203685477580.8%");
    assert_eq!(percent_string(i64::MAX), "+922337203685477580.7%");
}
