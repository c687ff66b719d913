use pair_stable_bluna::asset::{Asset, AssetInfo};
use pair_stable_bluna::decimal::Decimal;
use pair_stable_bluna::error::ContractError;
use pair_stable_bluna::math::AMP_PRECISION;
use pair_stable_bluna::pricing::{
    assert_max_spread, calculate_maker_fee, compute_offer_amount, compute_swap, DEFAULT_SLIPPAGE,
    MAX_ALLOWED_SLIPPAGE,
};
use std::str::FromStr;

const AMP: u64 = 100 * AMP_PRECISION;

fn fee() -> Decimal {
    Decimal::permille(3)
}

#[test]
fn slippage_constants_are_the_decimals_they_stand_for() {
    assert_eq!(DEFAULT_SLIPPAGE, cosmwasm_std::Decimal::from_str("0.005").unwrap().atomics().u128());
    assert_eq!(
        MAX_ALLOWED_SLIPPAGE,
        cosmwasm_std::Decimal::from_str("0.5").unwrap().atomics().u128()
    );
}

#[test]
fn swap_without_fee_in_a_balanced_pool_is_nearly_one_to_one() {
    assert_eq!(
        compute_swap(1_000_000, 6, 1_000_000, 6, 10_000, Decimal::zero(), AMP),
        Ok((9_999, 1, 0))
    );
}

#[test]
fn swap_takes_the_commission_from_what_it_returns() {
    assert_eq!(compute_swap(1_000_000, 6, 1_000_000, 6, 10_000, fee(), AMP), Ok((9_970, 1, 29)));
    assert_eq!(
        compute_swap(1_000_000, 6, 1_000_000, 6, 500_000, fee(), AMP),
        Ok((495_262, 3_248, 1_490))
    );
    assert_eq!(
        compute_swap(1_000_000, 6, 1_000_000, 6, 5_000_000, fee(), AMP),
        Ok((996_586, 4_000_416, 2_998))
    );
}

#[test]
fn swap_between_precisions_answers_in_the_ask_precision() {
    assert_eq!(
        compute_swap(1_000_000, 6, 100_000_000, 8, 10_000, fee(), AMP),
        Ok((996_901, 100, 2_999))
    );
}

#[test]
fn swap_in_an_imbalanced_pool() {
    assert_eq!(
        compute_swap(1_000_000_000_000, 6, 1_000_000_000, 6, 10_000, fee(), AMP),
        Ok((37, 9_963, 0))
    );
    assert_eq!(
        compute_swap(1_000_000_000, 6, 1_000_000_000_000, 6, 10_000, fee(), AMP),
        Ok((2_592_246, 0, 7_800))
    );
}

#[test]
fn swap_fails_when_scaling_overflows() {
    assert_eq!(
        compute_swap(u128::MAX, 6, 1_000_000, 8, 10, fee(), AMP),
        Err(ContractError::Overflow)
    );
}

#[test]
fn swap_fails_when_the_commission_exceeds_the_output() {
    assert_eq!(
        compute_swap(1_000_000, 6, 1_000_000, 6, 10_000, Decimal::percent(101), AMP),
        Err(ContractError::Overflow)
    );
    assert_eq!(
        compute_swap(1_000_000, 6, 1_000_000, 6, 10_000, Decimal::one(), AMP),
        Ok((0, 1, 9_999))
    );
}

#[test]
fn reverse_swap_without_fee() {
    assert_eq!(
        compute_offer_amount(1_000_000, 6, 1_000_000, 6, 9_999, Decimal::zero(), AMP),
        Ok((10_000, 1, 0))
    );
}

#[test]
fn reverse_swap_raises_the_ask_by_the_fee() {
    assert_eq!(
        compute_offer_amount(1_000_000, 6, 1_000_000, 6, 9_970, fee(), AMP),
        Ok((10_000, 1, 29))
    );
    assert_eq!(
        compute_offer_amount(1_000_000, 6, 1_000_000, 6, 495_262, fee(), AMP),
        Ok((500_000, 3_248, 1_490))
    );
}

#[test]
fn reverse_swap_fails_on_a_fee_of_one_or_more() {
    assert_eq!(
        compute_offer_amount(1_000_000, 6, 1_000_000, 6, 100, Decimal::one(), AMP),
        Err(ContractError::DivideByZero)
    );
    assert_eq!(
        compute_offer_amount(1_000_000, 6, 1_000_000, 6, 100, Decimal::percent(101), AMP),
        Err(ContractError::Overflow)
    );
}

#[test]
fn reverse_of_a_swap_gives_the_offer_back_within_a_few_units() {
    let pools: [(u128, u128); 3] =
        [(1_000_000, 1_000_000), (123_456_789, 987_654_321), (1_000_000_000, 1_000_000_000_000)];
    let offers: [u128; 6] = [10, 1_000, 10_000, 100_000, 500_000, 900_000];
    for (first, second) in pools {
        for offer in offers {
            let (ret, _, _) = compute_swap(first, 6, second, 6, offer, fee(), AMP).unwrap();
            let (back, _, _) = compute_offer_amount(first, 6, second, 6, ret, fee(), AMP).unwrap();
            let diff = if back > offer { back - offer } else { offer - back };
            assert!(diff <= 1, "pools {} {} offer {} back {}", first, second, offer, back);
            let (again, _, _) = compute_swap(first, 6, second, 6, back, fee(), AMP).unwrap();
            let diff = if again > ret { again - ret } else { ret - again };
            assert!(diff <= 1);
        }
    }
}

#[test]
fn reverse_of_a_swap_in_a_pool_out_of_balance_is_coarse() {
    // One unit of the scarce asset is worth hundreds of the other, so many
    // offers give the same return.
    let (ret, _, _) =
        compute_swap(1_000_000_000_000, 6, 1_000_000_000, 6, 1_000, fee(), AMP).unwrap();
    assert_eq!(ret, 3);
    let (back, _, _) =
        compute_offer_amount(1_000_000_000_000, 6, 1_000_000_000, 6, ret, fee(), AMP).unwrap();
    assert_eq!(back, 909);
}

#[test]
fn spread_above_the_allowed_maximum_is_refused() {
    assert_eq!(
        assert_max_spread(None, Some(Decimal::percent(51)), 100, 100, 0),
        Err(ContractError::AllowedSpreadAssertion)
    );
    assert_eq!(assert_max_spread(None, Some(Decimal::percent(50)), 100, 100, 0), Ok(()));
}

#[test]
fn spread_without_belief_price_is_held_to_the_tolerance() {
    // 5 of 1000 is exactly the default.
    assert_eq!(assert_max_spread(None, None, 1000, 995, 5), Ok(()));
    assert_eq!(assert_max_spread(None, None, 1000, 994, 6), Err(ContractError::MaxSpreadAssertion));
    assert_eq!(assert_max_spread(None, Some(Decimal::percent(10)), 1000, 900, 100), Ok(()));
    assert_eq!(
        assert_max_spread(None, Some(Decimal::percent(10)), 1000, 899, 101),
        Err(ContractError::MaxSpreadAssertion)
    );
}

#[test]
fn spread_with_belief_price_is_measured_against_the_expected_return() {
    // At a price of 2 an offer of 1000 should return 500.
    let price = Some(Decimal::percent(200));
    assert_eq!(assert_max_spread(price, Some(Decimal::percent(10)), 1000, 500, 0), Ok(()));
    assert_eq!(assert_max_spread(price, Some(Decimal::percent(10)), 1000, 450, 0), Ok(()));
    assert_eq!(
        assert_max_spread(price, Some(Decimal::percent(10)), 1000, 449, 0),
        Err(ContractError::MaxSpreadAssertion)
    );
    assert_eq!(assert_max_spread(price, Some(Decimal::percent(10)), 1000, 5000, 4000), Ok(()));
}

#[test]
fn spread_check_fails_on_a_zero_price_or_nothing_to_compare() {
    assert_eq!(
        assert_max_spread(Some(Decimal::zero()), None, 1000, 500, 0),
        Err(ContractError::DivideByZero)
    );
    assert_eq!(assert_max_spread(None, None, 0, 0, 0), Err(ContractError::DivideByZero));
    assert_eq!(assert_max_spread(None, None, 0, u128::MAX, 1), Err(ContractError::Overflow));
    assert_eq!(
        assert_max_spread(Some(Decimal::raw(1)), None, u128::MAX, 0, 0),
        Err(ContractError::Overflow)
    );
}

#[test]
fn maker_fee_is_a_part_of_the_commission() {
    let info = AssetInfo::NativeToken { denom: "uusd".to_string() };
    assert_eq!(
        calculate_maker_fee(info.clone(), 1000, Decimal::percent(10)),
        Ok(Some(Asset { info: info.clone(), amount: 100 }))
    );
    assert_eq!(
        calculate_maker_fee(info.clone(), 1000, Decimal::from_ratio(1, 3).unwrap()),
        Ok(Some(Asset { info: info.clone(), amount: 333 }))
    );
    assert_eq!(calculate_maker_fee(info.clone(), 9, Decimal::percent(10)), Ok(None));
    assert_eq!(calculate_maker_fee(info.clone(), 0, Decimal::percent(10)), Ok(None));
    assert_eq!(calculate_maker_fee(info.clone(), 1000, Decimal::zero()), Ok(None));
    assert_eq!(
        calculate_maker_fee(info, u128::MAX, Decimal::percent(101)),
        Err(ContractError::Overflow)
    );
}
