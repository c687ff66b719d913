use pair_stable_bluna::decimal::{
    Decimal, Decimal256, DECIMAL_FRACTIONAL, DECIMAL_FRACTIONAL_SQUARED,
};
use pair_stable_bluna::error::ContractError;
use pair_stable_bluna::wide::U256;

#[test]
fn constants_are_powers_of_ten() {
    assert_eq!(DECIMAL_FRACTIONAL, 10u128.pow(18));
    assert_eq!(DECIMAL_FRACTIONAL_SQUARED, 10u128.pow(36));
}

#[test]
fn simple_decimals() {
    assert_eq!(Decimal::zero().atomics, 0);
    assert_eq!(Decimal::one().atomics, DECIMAL_FRACTIONAL);
    assert_eq!(Decimal::raw(17).atomics, 17);
    assert_eq!(Decimal::percent(50).atomics, cosmwasm_std::Decimal::percent(50).atomics().u128());
    assert_eq!(Decimal::permille(3).atomics, cosmwasm_std::Decimal::permille(3).atomics().u128());
    assert_eq!(Decimal::percent(u64::MAX).atomics, u64::MAX as u128 * 10u128.pow(16));
}

#[test]
fn ratio_rounds_down_to_eighteen_digits() {
    assert_eq!(Decimal::from_ratio(1, 3), Ok(Decimal::raw(333_333_333_333_333_333)));
    assert_eq!(Decimal::from_ratio(2, 3), Ok(Decimal::raw(666_666_666_666_666_666)));
    assert_eq!(Decimal::from_ratio(1, 1), Ok(Decimal::one()));
    assert_eq!(Decimal::from_ratio(0, 7), Ok(Decimal::zero()));
    assert_eq!(Decimal::from_ratio(5, 2), Ok(Decimal::percent(250)));
    assert_eq!(
        Decimal::from_ratio(u128::MAX, u128::MAX).unwrap().atomics,
        cosmwasm_std::Decimal::from_ratio(u128::MAX, u128::MAX).atomics().u128()
    );
    assert_eq!(
        Decimal::from_ratio(123_456_789u128, 987_654_321u128).unwrap().atomics,
        cosmwasm_std::Decimal::from_ratio(123_456_789u128, 987_654_321u128).atomics().u128()
    );
}

#[test]
fn ratio_fails_on_zero_denominator_and_on_overflow() {
    assert_eq!(Decimal::from_ratio(1, 0), Err(ContractError::DivideByZero));
    assert_eq!(Decimal::from_ratio(0, 0), Err(ContractError::DivideByZero));
    assert_eq!(Decimal::from_ratio(u128::MAX, 1), Err(ContractError::Overflow));
    assert_eq!(
        Decimal::from_ratio(340_282_366_920_938_463_463, 1),
        Ok(Decimal::raw(340_282_366_920_938_463_463_000_000_000_000_000_000))
    );
    assert_eq!(Decimal::from_ratio(340_282_366_920_938_463_464, 1), Err(ContractError::Overflow));
}

#[test]
fn product_with_an_amount_rounds_down() {
    assert_eq!(Decimal::percent(50).mul_uint(3), Ok(1));
    assert_eq!(Decimal::percent(50).mul_uint(4), Ok(2));
    assert_eq!(Decimal::permille(3).mul_uint(10_000), Ok(30));
    assert_eq!(Decimal::zero().mul_uint(u128::MAX), Ok(0));
    assert_eq!(Decimal::one().mul_uint(u128::MAX), Ok(u128::MAX));
    assert_eq!(Decimal::raw(1).mul_uint(u128::MAX), Ok(340_282_366_920_938_463_463));
    assert_eq!(Decimal::percent(200).mul_uint(u128::MAX), Err(ContractError::Overflow));
    let d = cosmwasm_std::Decimal::from_ratio(7u128, 9u128);
    assert_eq!(
        Decimal::raw(d.atomics().u128()).mul_uint(1_000_000_007),
        Ok((cosmwasm_std::Uint128::new(1_000_000_007) * d).u128())
    );
}

#[test]
fn inverse_rounds_down() {
    assert_eq!(Decimal::one().inv(), Ok(Decimal::one()));
    assert_eq!(Decimal::percent(200).inv(), Ok(Decimal::percent(50)));
    assert_eq!(Decimal::percent(300).inv(), Ok(Decimal::raw(333_333_333_333_333_333)));
    assert_eq!(Decimal::raw(1).inv(), Ok(Decimal::raw(DECIMAL_FRACTIONAL_SQUARED)));
    assert_eq!(Decimal::raw(u128::MAX).inv(), Ok(Decimal::zero()));
    assert_eq!(Decimal::zero().inv(), Err(ContractError::DivideByZero));
    assert_eq!(
        Decimal::permille(997).inv().unwrap().atomics,
        cosmwasm_bignumber::Decimal256::from_ratio(1000u64, 997u64).0.low_u64() as u128
    );
}

#[test]
fn wide_decimals() {
    assert_eq!(Decimal256::zero().atomics.to_u128(), Some(0));
    assert_eq!(Decimal256::raw(u128::MAX).atomics.to_u128(), Some(u128::MAX));
}

#[test]
fn wide_numbers_keep_their_value() {
    for v in [0u128, 1, u64::MAX as u128, u64::MAX as u128 + 1, u128::MAX] {
        let w = U256::from_u128(v);
        assert_eq!(w.limbs, astroport::U256::from(v).0);
        assert_eq!(w.to_u128(), Some(v));
        assert_eq!(w.try_to_u128(), Ok(v));
    }
    let big = U256 { limbs: [0, 0, 1, 0] };
    assert_eq!(big.to_u128(), None);
    assert_eq!(big.try_to_u128(), Err(ContractError::Overflow));
    assert_eq!((U256 { limbs: [0, 0, 0, 1] }).to_u128(), None);
}

#[test]
fn wide_arithmetic() {
    let max = U256 { limbs: [u64::MAX; 4] };
    let one = U256::from_u128(1);
    let two = U256::from_u128(2);
    let zero = U256::from_u128(0);
    assert_eq!(U256::from_u128(u128::MAX).try_add(one).unwrap().limbs, [0, 0, 1, 0]);
    assert_eq!(max.try_add(one).unwrap_err(), ContractError::Overflow);
    assert_eq!(max.try_add(zero).unwrap().limbs, [u64::MAX; 4]);
    assert_eq!(one.try_sub(two).unwrap_err(), ContractError::Overflow);
    assert_eq!(two.try_sub(one).unwrap().limbs, [1, 0, 0, 0]);
    assert_eq!(
        U256::from_u128(u128::MAX).try_mul(U256::from_u128(u128::MAX)).unwrap().limbs,
        [1, 0, u64::MAX - 1, u64::MAX]
    );
    assert_eq!(max.try_mul(two).unwrap_err(), ContractError::Overflow);
    assert_eq!(max.try_div(two).unwrap().limbs, [u64::MAX, u64::MAX, u64::MAX, u64::MAX >> 1]);
    assert_eq!(U256::from_u128(7).try_div(two).unwrap().limbs, [3, 0, 0, 0]);
    assert_eq!(one.try_div(zero).unwrap_err(), ContractError::DivideByZero);
}

#[test]
fn wide_numbers_within_one() {
    let a = U256::from_u128(10);
    assert!(a.is_within_one(U256::from_u128(10)));
    assert!(a.is_within_one(U256::from_u128(9)));
    assert!(a.is_within_one(U256::from_u128(11)));
    assert!(!a.is_within_one(U256::from_u128(12)));
    assert!(!a.is_within_one(U256::from_u128(8)));
    assert!(!(U256 { limbs: [0, 1, 0, 0] }).is_within_one(U256::from_u128(0)));
    assert!((U256 { limbs: [0, 1, 0, 0] }).is_within_one(U256::from_u128(u64::MAX as u128)));
}

#[test]
fn wide_sum_at_the_boundary_of_256_bits() {
    let max = U256 { limbs: [u64::MAX; 4] };
    let one = U256::from_u128(1);
    assert_eq!(max.try_add(one).unwrap_err(), ContractError::Overflow);
    assert_eq!(one.try_add(max).unwrap_err(), ContractError::Overflow);
    assert_eq!(max.try_add(max).unwrap_err(), ContractError::Overflow);
    let below = U256 { limbs: [u64::MAX - 1, u64::MAX, u64::MAX, u64::MAX] };
    assert_eq!(below.try_add(one).unwrap().limbs, [u64::MAX; 4]);
    let half = U256 { limbs: [0, 0, 0, 1 << 63] };
    assert_eq!(half.try_add(half).unwrap_err(), ContractError::Overflow);
}

#[test]
fn wide_product_at_the_boundary_of_256_bits() {
    // Two to the power 128, times itself, is two to the power 256.
    let big = U256 { limbs: [0, 0, 1, 0] };
    assert_eq!(big.try_mul(big).unwrap_err(), ContractError::Overflow);
    // One less in one factor fits, with the top words full.
    let less = U256::from_u128(u128::MAX);
    assert_eq!(big.try_mul(less).unwrap().limbs, [0, 0, u64::MAX, u64::MAX]);
    assert_eq!(less.try_mul(big).unwrap().limbs, [0, 0, u64::MAX, u64::MAX]);
    let max = U256 { limbs: [u64::MAX; 4] };
    assert_eq!(max.try_mul(U256::from_u128(1)).unwrap().limbs, [u64::MAX; 4]);
    assert_eq!(max.try_mul(max).unwrap_err(), ContractError::Overflow);
    // Two to the power 192 times two to the power 64.
    let high = U256 { limbs: [0, 0, 0, 1] };
    let word = U256 { limbs: [0, 1, 0, 0] };
    assert_eq!(high.try_mul(word).unwrap_err(), ContractError::Overflow);
    assert_eq!(high.try_mul(U256::from_u128(u64::MAX as u128)).unwrap().limbs, [0, 0, 0, u64::MAX]);
}
