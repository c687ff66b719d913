use pair_stable_bluna::asset::{Asset, AssetInfo};
use pair_stable_bluna::error::ContractError;
use pair_stable_bluna::liquidity::{compute_share, geometric_mean, get_share_in_assets};
use pair_stable_bluna::math::{compute_d, AMP_PRECISION};

const AMP: u64 = 100 * AMP_PRECISION;

fn pools(a: u128, b: u128) -> [Asset; 2] {
    [
        Asset { info: AssetInfo::NativeToken { denom: "uusd".to_string() }, amount: a },
        Asset { info: AssetInfo::Token { contract_addr: "token0000".to_string() }, amount: b },
    ]
}

#[test]
fn geometric_mean_rounds_down() {
    assert_eq!(geometric_mean(0, 0), 0);
    assert_eq!(geometric_mean(0, 100), 0);
    assert_eq!(geometric_mean(1, 1), 1);
    assert_eq!(geometric_mean(2, 3), 2);
    assert_eq!(geometric_mean(100, 400), 200);
    assert_eq!(geometric_mean(1_000_000, 1_000_000), 1_000_000);
    assert_eq!(geometric_mean(u128::MAX, u128::MAX), u128::MAX);
    assert_eq!(geometric_mean(u128::MAX, u128::MAX - 1), u128::MAX - 1);
    assert_eq!(geometric_mean(u128::MAX, 1), 18_446_744_073_709_551_615);
}

#[test]
fn first_deposit_mints_the_geometric_mean() {
    assert_eq!(compute_share(0, 6, 0, 6, 1_000_000, 1_000_000, 0, 6, AMP), Ok(1_000_000));
    assert_eq!(compute_share(0, 6, 0, 8, 1_000_000, 400_000_000, 0, 6, AMP), Ok(2_000_000));
    assert_eq!(compute_share(0, 6, 0, 6, 100, 400, 0, 8, AMP), Ok(20_000));
    assert_eq!(compute_share(0, 6, 0, 6, 2, 3, 0, 6, AMP), Ok(2));
}

#[test]
fn later_deposit_mints_by_the_growth_of_the_invariant() {
    assert_eq!(
        compute_share(1_000_000, 6, 1_000_000, 6, 100_000, 100_000, 1_000_000, 6, AMP),
        Ok(100_000)
    );
    assert_eq!(
        compute_share(1_000_000, 6, 1_000_000, 6, 100_000, 1, 1_000_000, 6, AMP),
        Ok(49_988)
    );
    assert_eq!(compute_share(1_000_000, 6, 2_000_000, 6, 500, 700, 3_000_000, 6, AMP), Ok(1_200));
    assert_eq!(
        compute_share(1_000_000, 6, 100_000_000, 8, 100_000, 10_000_000, 1_000_000, 6, AMP),
        Ok(100_000)
    );
    assert_eq!(
        compute_share(1_000_000_000_000, 6, 1_000_000_000_000, 6, 1, 1, 1_000_000, 6, AMP),
        Ok(0)
    );
}

#[test]
fn deposit_that_does_not_raise_the_invariant_is_too_small() {
    assert_eq!(
        compute_share(1_000_000, 6, 1_000_000, 6, 0, 0, 1_000_000, 6, AMP),
        Err(ContractError::LiquidityAmountTooSmall)
    );
}

#[test]
fn deposit_fails_on_shares_without_balances() {
    assert_eq!(compute_share(0, 6, 0, 6, 5, 5, 10, 6, AMP), Err(ContractError::DivideByZero));
}

#[test]
fn deposit_fails_on_overflow() {
    assert_eq!(
        compute_share(0, 6, 0, 8, u128::MAX, 1, 0, 6, AMP),
        Err(ContractError::Overflow)
    );
    assert_eq!(
        compute_share(u128::MAX, 6, 1, 6, 1, 1, 10, 6, AMP),
        Err(ContractError::Overflow)
    );
    assert_eq!(
        compute_share(1000, 6, 1000, 6, 1, 1, 10, 6, u64::MAX),
        Err(ContractError::Overflow)
    );
}

#[test]
fn half_of_the_shares_is_worth_half_of_each_balance() {
    let p = pools(200, 300);
    let r = get_share_in_assets(&p, 50, 100).unwrap();
    assert_eq!(r[0], Asset { info: p[0].info.clone(), amount: 100 });
    assert_eq!(r[1], Asset { info: p[1].info.clone(), amount: 150 });
}

#[test]
fn worth_of_shares_rounds_down() {
    let p = pools(3, 200);
    let r = get_share_in_assets(&p, 1, 3).unwrap();
    assert_eq!(r[0].amount, 1);
    assert_eq!(r[1].amount, 66);
    let r = get_share_in_assets(&p, 2, 3).unwrap();
    assert_eq!(r[0].amount, 2);
    assert_eq!(r[1].amount, 133);
    let r = get_share_in_assets(&pools(u128::MAX, u128::MAX), u128::MAX - 1, u128::MAX).unwrap();
    assert_eq!(r[0].amount, u128::MAX - 1);
}

#[test]
fn no_shares_are_worth_nothing() {
    let r = get_share_in_assets(&pools(200, 300), 50, 0).unwrap();
    assert_eq!(r[0].amount, 0);
    assert_eq!(r[1].amount, 0);
    let r = get_share_in_assets(&pools(200, 300), 0, 100).unwrap();
    assert_eq!(r[0].amount, 0);
    assert_eq!(r[1].amount, 0);
}

#[test]
fn worth_of_more_shares_than_there_are_may_overflow() {
    assert_eq!(
        get_share_in_assets(&pools(u128::MAX, 1), 2, 1),
        Err(ContractError::Overflow)
    );
    assert_eq!(get_share_in_assets(&pools(10, 1), 2, 1).unwrap()[0].amount, 20);
}

#[test]
fn deposit_paid_back_at_once_gives_no_more() {
    // First deposit: everything comes back.
    let share = compute_share(0, 6, 0, 6, 1_000_000, 4_000_000, 0, 6, AMP).unwrap();
    let back = get_share_in_assets(&pools(1_000_000, 4_000_000), share, share).unwrap();
    assert_eq!(back[0].amount, 1_000_000);
    assert_eq!(back[1].amount, 4_000_000);
    // Later deposit in proportion.
    let share =
        compute_share(1_000_000, 6, 2_000_000, 6, 500, 1_000, 3_000_000, 6, AMP).unwrap();
    let back = get_share_in_assets(&pools(1_000_500, 2_001_000), share, 3_000_000 + share).unwrap();
    assert!(back[0].amount <= 500);
    assert!(back[1].amount <= 1_000);
}

#[test]
fn shares_are_worth_no_more_than_the_growth_they_were_minted_for() {
    let (first, second, brought_first, brought_second, total) = (1_000_000u128, 1_000_000u128, 100_000u128, 1u128, 1_000_000u128);
    let share = compute_share(first, 6, second, 6, brought_first, brought_second, total, 6, AMP).unwrap();
    let before = compute_d(2 * AMP, first, second).unwrap();
    let after = compute_d(2 * AMP, first + brought_first, second + brought_second).unwrap();
    let back = get_share_in_assets(&pools(first + brought_first, second + brought_second), share, total + share).unwrap();
    assert!(back[0].amount * after <= (first + brought_first) * (after - before));
    assert!(back[1].amount * after <= (second + brought_second) * (after - before));
    // The second asset comes back in a larger amount than was brought.
    assert!(back[1].amount > brought_second);
}
