use compound_monitor::uint::{DecimalError, I256, U256};

const MAX_TEXT: &str =
    "115792089237316195423570985008687907853269984665640564039457584007913129639935";
const OVER_MAX_TEXT: &str =
    "115792089237316195423570985008687907853269984665640564039457584007913129639936";

#[test]
fn zero_is_zero() {
    assert!(U256::zero().is_zero());
    assert!(!U256::from_u64(1).is_zero());
    assert_eq!(U256::zero(), U256 { w0: 0, w1: 0, w2: 0, w3: 0 });
}

#[test]
fn from_u128_splits_into_words() {
    let x = U256::from_u128(0x0123_4567_89ab_cdef_fedc_ba98_7654_3210);
    assert_eq!(x.w0, 0xfedc_ba98_7654_3210);
    assert_eq!(x.w1, 0x0123_4567_89ab_cdef);
    assert_eq!(x.w2, 0);
    assert_eq!(x.w3, 0);
    assert_eq!(U256::from_u128(u128::MAX).to_decimal_string(), "340282366920938463463374607431768211455");
}

#[test]
fn decimal_text_of_amounts() {
    assert_eq!(U256::zero().to_decimal_string(), "0");
    assert_eq!(U256::from_u64(7).to_decimal_string(), "7");
    assert_eq!(U256::from_u64(1_500_000).to_decimal_string(), "1500000");
    assert_eq!(U256::from_u64(u64::MAX).to_decimal_string(), "18446744073709551615");
    assert_eq!(U256::max_value().to_decimal_string(), MAX_TEXT);
    let two_to_64 = U256 { w0: 0, w1: 1, w2: 0, w3: 0 };
    assert_eq!(two_to_64.to_decimal_string(), "18446744073709551616");
    let two_to_192 = U256 { w0: 0, w1: 0, w2: 0, w3: 1 };
    assert_eq!(
        two_to_192.to_decimal_string(),
        "6277101735386680763835789423207666416102355444464034512896"
    );
}

#[test]
fn reading_decimal_text() {
    assert_eq!(U256::from_dec_str("0"), Ok(U256::zero()));
    assert_eq!(U256::from_dec_str(""), Ok(U256::zero()));
    assert_eq!(U256::from_dec_str("000123"), Ok(U256::from_u64(123)));
    assert_eq!(U256::from_dec_str("1000000"), Ok(U256::from_u64(1_000_000)));
    assert_eq!(U256::from_dec_str(MAX_TEXT), Ok(U256::max_value()));
    assert_eq!(
        U256::from_dec_str("18446744073709551616"),
        Ok(U256 { w0: 0, w1: 1, w2: 0, w3: 0 })
    );
}

#[test]
fn reading_rejects_what_is_no_digit() {
    assert_eq!(U256::from_dec_str("12a"), Err(DecimalError::InvalidCharacter));
    assert_eq!(U256::from_dec_str("-1"), Err(DecimalError::InvalidCharacter));
    assert_eq!(U256::from_dec_str("+1"), Err(DecimalError::InvalidCharacter));
    assert_eq!(U256::from_dec_str("1.5"), Err(DecimalError::InvalidCharacter));
    assert_eq!(U256::from_dec_str(" 1"), Err(DecimalError::InvalidCharacter));
    assert_eq!(U256::from_dec_str("0x10"), Err(DecimalError::InvalidCharacter));
    assert_eq!(U256::from_dec_str("١٢"), Err(DecimalError::InvalidCharacter));
}

#[test]
fn reading_rejects_what_does_not_fit() {
    assert_eq!(U256::from_dec_str(OVER_MAX_TEXT), Err(DecimalError::TooLarge));
    let long = format!("{}0", MAX_TEXT);
    assert_eq!(U256::from_dec_str(&long), Err(DecimalError::TooLarge));
}

#[test]
fn the_first_fault_from_the_left_is_reported() {
    // The number overflows before the letter is reached.
    let overflow_first = format!("{}x", OVER_MAX_TEXT);
    assert_eq!(U256::from_dec_str(&overflow_first), Err(DecimalError::TooLarge));
    // The letter stands before the overflow.
    let letter_first = format!("x{}", OVER_MAX_TEXT);
    assert_eq!(U256::from_dec_str(&letter_first), Err(DecimalError::InvalidCharacter));
}

#[test]
fn text_round_trips_through_amounts() {
    for text in ["0", "1", "10", "999", "1000000000000000000", MAX_TEXT] {
        let amount = U256::from_dec_str(text).unwrap();
        assert_eq!(amount.to_decimal_string(), text);
    }
}

#[test]
fn division_with_remainder() {
    let (q, r) = U256::from_u64(1_500_000).div_rem(&U256::from_u64(1_000_000)).unwrap();
    assert_eq!(q, U256::from_u64(1));
    assert_eq!(r, U256::from_u64(500_000));
    let (q, r) = U256::from_u64(7).div_rem(&U256::from_u64(9)).unwrap();
    assert_eq!(q, U256::zero());
    assert_eq!(r, U256::from_u64(7));
    let (q, r) =
        U256::max_value().div_rem(&U256::from_u128(1_000_000_000_000_000_000)).unwrap();
    assert_eq!(
        q.to_decimal_string(),
        "115792089237316195423570985008687907853269984665640564039457"
    );
    assert_eq!(r.to_decimal_string(), "584007913129639935");
    let two_to_64 = U256 { w0: 0, w1: 1, w2: 0, w3: 0 };
    let (q, r) = U256::max_value().div_rem(&two_to_64).unwrap();
    assert_eq!(q, U256 { w0: u64::MAX, w1: u64::MAX, w2: u64::MAX, w3: 0 });
    assert_eq!(r, U256::from_u64(u64::MAX));
    // Two divisors of more than one word.
    let wide = U256 { w0: 3, w1: 0, w2: 1, w3: 0 };
    let (q, r) = U256 { w0: 10, w1: 0, w2: 5, w3: 0 }.div_rem(&wide).unwrap();
    assert_eq!(q, U256::from_u64(4));
    assert_eq!(r, U256 { w0: u64::MAX - 1, w1: u64::MAX, w2: 0, w3: 0 });
}

#[test]
fn nothing_is_divided_by_zero() {
    assert_eq!(U256::from_u64(5).div_rem(&U256::zero()), None);
    assert_eq!(U256::zero().div_rem(&U256::zero()), None);
    assert_eq!(U256::zero().div_rem(&U256::from_u64(5)), Some((U256::zero(), U256::zero())));
}

#[test]
fn amounts_are_ordered_by_value() {
    let small = U256::from_u64(u64::MAX);
    let large = U256 { w0: 0, w1: 1, w2: 0, w3: 0 };
    assert!(small.lt(&large));
    assert!(!large.lt(&small));
    assert!(!small.lt(&small));
    assert!(U256 { w0: 5, w1: 0, w2: 0, w3: 1 }.lt(&U256 { w0: 0, w1: 0, w2: 0, w3: 2 }));
    assert!(U256 { w0: 5, w1: 9, w2: 1, w3: 1 }.lt(&U256 { w0: 0, w1: 0, w2: 2, w3: 1 }));
    assert!(U256::zero().lt(&U256::max_value()));
    assert!(small.same(&U256::from_u128(u64::MAX as u128)));
    assert!(!small.same(&large));
}

#[test]
fn negative_integers_clamp_to_zero() {
    let minus_hundred = I256::from_i128(-100);
    assert!(minus_hundred.is_negative());
    assert_eq!(minus_hundred.clamp_to_amount(), U256::zero());
    assert_eq!(
        minus_hundred.raw,
        U256 { w0: u64::MAX - 99, w1: u64::MAX, w2: u64::MAX, w3: u64::MAX }
    );
    assert_eq!(I256::from_i128(i128::MIN).clamp_to_amount(), U256::zero());
    assert_eq!(I256::from_i128(-1).raw, U256::max_value());
    let lowest = I256::from_raw(U256 { w0: 0, w1: 0, w2: 0, w3: 1 << 63 });
    assert!(lowest.is_negative());
    assert_eq!(lowest.clamp_to_amount(), U256::zero());
}

#[test]
fn other_integers_keep_their_value() {
    assert!(!I256::from_i128(0).is_negative());
    assert_eq!(I256::from_i128(0).clamp_to_amount(), U256::zero());
    assert_eq!(I256::from_i128(100).clamp_to_amount(), U256::from_u64(100));
    assert_eq!(I256::from_i128(i128::MAX).clamp_to_amount(), U256::from_u128(i128::MAX as u128));
    // Above 2^128, where a conversion through 128 bits would lose the value.
    let large = U256 { w0: 1, w1: 2, w2: 3, w3: (1 << 63) - 1 };
    assert!(!I256::from_raw(large).is_negative());
    assert_eq!(I256::from_raw(large).clamp_to_amount(), large);
}
