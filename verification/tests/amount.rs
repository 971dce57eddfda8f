use nats_bridge::amount::{convert_amount, i64_to_decimal, MinorUnit, StringMinorUnit};

#[test]
fn decimal_of_zero() {
    assert_eq!(i64_to_decimal(0), "0");
}

#[test]
fn decimal_of_positive_amounts() {
    assert_eq!(i64_to_decimal(7), "7");
    assert_eq!(i64_to_decimal(10), "10");
    assert_eq!(i64_to_decimal(1000), "1000");
    assert_eq!(i64_to_decimal(123456789), "123456789");
}

#[test]
fn decimal_of_negative_amounts() {
    assert_eq!(i64_to_decimal(-1), "-1");
    assert_eq!(i64_to_decimal(-250), "-250");
}

#[test]
fn decimal_of_extreme_amounts() {
    assert_eq!(i64_to_decimal(i64::MAX), i64::MAX.to_string());
    assert_eq!(i64_to_decimal(i64::MIN), i64::MIN.to_string());
}

#[test]
fn decimal_matches_std_formatting() {
    for n in [-1_000_001i64, -99, -10, -9, 0, 9, 10, 99, 100, 4_294_967_296, 999_999_999_999] {
        assert_eq!(i64_to_decimal(n), n.to_string());
    }
}

#[test]
fn convert_amount_gives_minor_unit_string() {
    let amount = convert_amount(&MinorUnit::new(1050));
    assert_eq!(amount.to_string(), "1050");
}

#[test]
fn minor_unit_round_trip() {
    assert_eq!(MinorUnit::new(-42).get_amount_as_i64(), -42);
    assert_eq!(StringMinorUnit::new("12".to_string()).to_string(), "12");
}
