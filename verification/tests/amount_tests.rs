use scilla::amount::{
    parse_amount, parse_commission, parse_sol_amount, AmountError, Commission, CommissionError,
    LAMPORTS_PER_SOL,
};

#[test]
fn whole_number_scales_exactly() {
    assert_eq!(parse_amount("2"), Ok(2 * LAMPORTS_PER_SOL));
    assert_eq!(parse_amount(" 2 "), Ok(2 * LAMPORTS_PER_SOL));
    assert_eq!(parse_amount("15"), Ok(15_000_000_000));
}

#[test]
fn fractions_scale_exactly() {
    assert_eq!(parse_amount("1.5"), Ok(1_500_000_000));
    assert_eq!(parse_amount("0.000000001"), Ok(1));
    assert_eq!(parse_amount(".5"), Ok(500_000_000));
    assert_eq!(parse_amount("5."), Ok(5_000_000_000));
    assert_eq!(parse_amount("123.456789"), Ok(123_456_789_000));
}

#[test]
fn truncation_goes_toward_zero() {
    // the tenth fractional digit is dropped, not rounded
    assert_eq!(parse_amount("1.0000000019"), Ok(1_000_000_001));
    assert_eq!(parse_amount("0.9999999999"), Ok(999_999_999));
}

#[test]
fn largest_representable_amount() {
    assert_eq!(parse_amount("18446744073.709551615"), Ok(u64::MAX));
    assert_eq!(parse_amount("18446744073.709551616"), Err(AmountError::TooLarge));
    assert_eq!(parse_amount("18446744074"), Err(AmountError::TooLarge));
    assert_eq!(parse_amount("99999999999999999999999"), Err(AmountError::TooLarge));
}

#[test]
fn zero_and_negative_are_rejected() {
    assert_eq!(parse_amount("0"), Err(AmountError::NotPositive));
    assert_eq!(parse_amount("0.0"), Err(AmountError::NotPositive));
    // below one atomic unit truncates to zero, and zero is rejected
    assert_eq!(parse_amount("0.0000000001"), Err(AmountError::NotPositive));
    assert_eq!(parse_amount("-1"), Err(AmountError::NotPositive));
    assert_eq!(parse_amount("-1.5"), Err(AmountError::NotPositive));
}

#[test]
fn malformed_inputs_are_rejected() {
    assert_eq!(parse_amount("abc"), Err(AmountError::Malformed));
    assert_eq!(parse_amount("1.2.3"), Err(AmountError::Malformed));
    assert_eq!(parse_amount("."), Err(AmountError::Malformed));
    assert_eq!(parse_amount("1,5"), Err(AmountError::Malformed));
    assert_eq!(parse_amount("inf"), Err(AmountError::Malformed));
    assert_eq!(parse_amount("-x"), Err(AmountError::Malformed));
    assert_eq!(parse_amount("1 5"), Err(AmountError::Malformed));
}

#[test]
fn empty_input_is_its_own_case() {
    assert_eq!(parse_amount(""), Err(AmountError::Empty));
    assert_eq!(parse_amount("   "), Err(AmountError::Empty));
    // the optional variant treats it as a valid zero
    assert_eq!(parse_sol_amount(""), Ok(0));
    assert_eq!(parse_sol_amount(" \t "), Ok(0));
    // but an explicit zero is still rejected
    assert_eq!(parse_sol_amount("0"), Err(AmountError::NotPositive));
    assert_eq!(parse_sol_amount("2.5"), Ok(2_500_000_000));
}

#[test]
fn round_trip_within_one_atomic_unit() {
    // recovering the display value from the atomic value loses less than
    // one atomic unit
    let inputs = ["1.25", "0.1", "123.456789", "2", "0.000000001", "99.999999999"];
    for text in inputs {
        let atomic = parse_amount(text).unwrap();
        let display: f64 = text.parse().unwrap();
        let recovered = atomic as f64 / LAMPORTS_PER_SOL as f64;
        assert!(
            (recovered - display).abs() < 1e-9,
            "{text}: {recovered} vs {display}"
        );
    }
}

#[test]
fn commission_defaults_and_bounds() {
    assert_eq!(parse_commission(""), Ok(0));
    assert_eq!(parse_commission("  "), Ok(0));
    assert_eq!(parse_commission("0"), Ok(0));
    assert_eq!(parse_commission("50"), Ok(50));
    assert_eq!(parse_commission(" 100 "), Ok(100));
    assert_eq!(parse_commission("101"), Err(CommissionError::OutOfRange));
    assert_eq!(parse_commission("999999999999999999999"), Err(CommissionError::OutOfRange));
    assert_eq!(parse_commission("abc"), Err(CommissionError::Malformed));
    assert_eq!(parse_commission("-5"), Err(CommissionError::Malformed));
    assert_eq!(parse_commission("5.5"), Err(CommissionError::Malformed));
}

#[test]
fn commission_type_carries_the_value() {
    let c = Commission::parse("7").unwrap();
    assert_eq!(c.value(), 7);
    let c = Commission::new(100);
    assert_eq!(c.value(), 100);
    assert!(Commission::parse("200").is_err());
}
