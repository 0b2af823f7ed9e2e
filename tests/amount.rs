use inoutflow::amount::Amount;

#[test]
fn one_token_at_eighteen_decimals_shows_as_one() {
    let a = Amount::from_dec_str("1000000000000000000").unwrap();
    assert_eq!(a, Amount::from_u64(1_000_000_000_000_000_000));
    assert_eq!(a.format_units(18), "1");
}

#[test]
fn fractions_show_without_trailing_zeros() {
    assert_eq!(Amount::from_u64(1_500_000_000_000_000_000).format_units(18), "1.5");
    assert_eq!(Amount::from_u64(1).format_units(18), "0.000000000000000001");
    assert_eq!(Amount::from_u64(120).format_units(2), "1.2");
    assert_eq!(Amount::from_u64(0).format_units(18), "0");
    assert_eq!(Amount::from_u64(42).format_units(0), "42");
}

#[test]
fn large_amounts_show_exactly() {
    let a = Amount::from_dec_str("123456789012345678901234567890").unwrap();
    assert_eq!(a.to_decimal_string(), "123456789012345678901234567890");
    assert_eq!(a.format_units(18), "123456789012.34567890123456789");
}

#[test]
fn decimal_parsing() {
    assert_eq!(Amount::from_dec_str("0"), Some(Amount::zero()));
    assert_eq!(Amount::from_dec_str(""), Some(Amount::zero()));
    assert_eq!(Amount::from_dec_str("18446744073709551616"), Some(Amount { w0: 0, w1: 1, w2: 0, w3: 0 }));
    assert_eq!(Amount::from_dec_str("12a"), None);
    assert_eq!(Amount::from_dec_str("-1"), None);
    assert_eq!(Amount::from_dec_str(" 1"), None);
}

#[test]
fn decimal_parsing_at_the_256_bit_limit() {
    let max = "115792089237316195423570985008687907853269984665640564039457584007913129639935";
    let over = "115792089237316195423570985008687907853269984665640564039457584007913129639936";
    assert_eq!(Amount::from_dec_str(max), Some(Amount { w0: u64::MAX, w1: u64::MAX, w2: u64::MAX, w3: u64::MAX }));
    assert_eq!(Amount::from_dec_str(over), None);
}

#[test]
fn checked_add_carries_and_overflows() {
    let a = Amount::from_u64(u64::MAX);
    assert_eq!(a.checked_add(Amount::from_u64(1)), Some(Amount { w0: 0, w1: 1, w2: 0, w3: 0 }));
    let max = Amount { w0: u64::MAX, w1: u64::MAX, w2: u64::MAX, w3: u64::MAX };
    assert_eq!(max.checked_add(Amount::from_u64(1)), None);
    assert_eq!(max.checked_add(Amount::zero()), Some(max));
}

#[test]
fn checked_sub_borrows_and_underflows() {
    let a = Amount { w0: 0, w1: 1, w2: 0, w3: 0 };
    assert_eq!(a.checked_sub(Amount::from_u64(1)), Some(Amount::from_u64(u64::MAX)));
    assert_eq!(Amount::from_u64(1).checked_sub(Amount::from_u64(2)), None);
}
