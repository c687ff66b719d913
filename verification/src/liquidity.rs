//! Shares of the pool: how many a deposit mints, and what a number of them
//! is worth.

use crate::asset::Asset;
use crate::convergence::lemma_compute_d_of_balanced_pool;
use crate::decimal::{checked_multiply_ratio, multiply_ratio_spec};
use crate::error::ContractError;
use crate::math::{compute_d, compute_d_spec, lemma_mul_bound, N_COINS};
use crate::precision::{adjust_precision, adjust_precision_spec};
use crate::pricing::greater_precision;
use crate::wide::U256;
use vstd::arithmetic::div_mod::{
    lemma_div_multiples_vanish,
    lemma_div_pos_is_pos,
    lemma_multiply_divide_le,
    lemma_remainder_lower,
};
use vstd::arithmetic::mul::{lemma_mul_inequality, lemma_mul_is_commutative, lemma_mul_nonnegative};
use vstd::prelude::*;

verus! {

/// Whether `r` is the square root of `n`, rounded down.
pub open spec fn is_sqrt(r: int, n: int) -> bool {
    0 <= r && r * r <= n < (r + 1) * (r + 1)
}

/// A number has one square root rounded down.
pub proof fn lemma_sqrt_unique(r1: int, r2: int, n: int)
    by (nonlinear_arith)
    requires
        is_sqrt(r1, n),
        is_sqrt(r2, n),
    ensures
        r1 == r2,
{
    if r1 < r2 {
        assert((r1 + 1) * (r1 + 1) <= r2 * r2);
    } else if r2 < r1 {
        assert((r2 + 1) * (r2 + 1) <= r1 * r1);
    }
}

/// The square root of `n`, rounded down.
pub open spec fn isqrt(n: int) -> int {
    choose|r: int| is_sqrt(r, n)
}

/// Returns the geometric mean of two amounts, rounded down: the number of
/// shares for the first deposit into a pool, before it is brought to the
/// precision of the share.
pub fn geometric_mean(a: u128, b: u128) -> (r: u128)
    ensures
        is_sqrt(r as int, a * b),
        r == isqrt(a * b),
{
    proof {
        lemma_mul_bound(a as int, b as int, u128::MAX as int, u128::MAX as int);
    }
    let product = match U256::from_u128(a).checked_mul(U256::from_u128(b)) {
        Some(p) => p,
        None => U256::from_u128(0),
    };
    let root = product.integer_sqrt();
    proof {
        let rv = root@ as int;
        let m = 0x1_0000_0000_0000_0000_0000_0000_0000_0000int;
        if rv >= m {
            assert(rv * rv >= m * m) by (nonlinear_arith)
                requires
                    rv >= m,
                    m >= 0,
            ;
            assert(m * m > (m - 1) * (m - 1)) by (nonlinear_arith)
                requires
                    m == 0x1_0000_0000_0000_0000_0000_0000_0000_0000int,
            ;
        }
    }
    proof {
        assert(is_sqrt(root@ as int, a * b));
        lemma_sqrt_unique(root@ as int, isqrt(a * b), a * b);
    }
    match root.to_u128() {
        Some(v) => v,
        None => 0,
    }
}

/// The shares that a deposit mints.
///
/// The deposits and the balances before them are brought to the greater of
/// the two precisions. Into an empty pool the deposit mints the geometric
/// mean of its two amounts, brought to the precision of the share. Into any
/// other it mints the part of the shares in being by which the deposit raises
/// the invariant. A deposit that does not raise it fails with
/// `LiquidityAmountTooSmall`.
pub open spec fn compute_share_spec(
    pool_0: u128,
    precision_0: u8,
    pool_1: u128,
    precision_1: u8,
    deposit_0: u128,
    deposit_1: u128,
    total_share: u128,
    share_precision: u8,
    amp: u64,
) -> Result<u128, ContractError> {
    let g = greater_precision(precision_0, precision_1);
    match adjust_precision_spec(deposit_0, precision_0, g) {
        Err(e) => Err(e),
        Ok(deposit_0) => match adjust_precision_spec(deposit_1, precision_1, g) {
            Err(e) => Err(e),
            Ok(deposit_1) => if total_share == 0 {
                adjust_precision_spec(isqrt(deposit_0 * deposit_1) as u128, g, share_precision)
            } else if amp * N_COINS > u64::MAX {
                Err(ContractError::Overflow)
            } else {
                let leverage = (amp * N_COINS) as u64;
                match adjust_precision_spec(pool_0, precision_0, g) {
                    Err(e) => Err(e),
                    Ok(pool_0) => match adjust_precision_spec(pool_1, precision_1, g) {
                        Err(e) => Err(e),
                        Ok(pool_1) => match compute_d_spec(leverage, pool_0, pool_1) {
                            Err(e) => Err(e),
                            Ok(d_before) => if pool_0 + deposit_0 > u128::MAX || pool_1
                                + deposit_1 > u128::MAX {
                                Err(ContractError::Overflow)
                            } else {
                                match compute_d_spec(
                                    leverage,
                                    (pool_0 + deposit_0) as u128,
                                    (pool_1 + deposit_1) as u128,
                                ) {
                                    Err(e) => Err(e),
                                    Ok(d_after) => if d_before >= d_after {
                                        Err(ContractError::LiquidityAmountTooSmall)
                                    } else {
                                        multiply_ratio_spec(
                                            total_share,
                                            (d_after - d_before) as u128,
                                            d_before,
                                        )
                                    },
                                }
                            },
                        },
                    },
                }
            },
        },
    }
}

/// Returns the shares that a deposit mints. The result may be zero: whether
/// such a deposit is accepted is for the caller to say.
pub fn compute_share(
    pool_0: u128,
    precision_0: u8,
    pool_1: u128,
    precision_1: u8,
    deposit_0: u128,
    deposit_1: u128,
    total_share: u128,
    share_precision: u8,
    amp: u64,
) -> (r: Result<u128, ContractError>)
    ensures
        r == compute_share_spec(
            pool_0,
            precision_0,
            pool_1,
            precision_1,
            deposit_0,
            deposit_1,
            total_share,
            share_precision,
            amp,
        ),
{
    let g = if precision_0 > precision_1 {
        precision_0
    } else {
        precision_1
    };
    let deposit_0 = adjust_precision(deposit_0, precision_0, g)?;
    let deposit_1 = adjust_precision(deposit_1, precision_1, g)?;
    if total_share == 0 {
        adjust_precision(geometric_mean(deposit_0, deposit_1), g, share_precision)
    } else {
        let leverage = match amp.checked_mul(N_COINS as u64) {
            Some(l) => l,
            None => { return Err(ContractError::Overflow); },
        };
        let pool_0 = adjust_precision(pool_0, precision_0, g)?;
        let pool_1 = adjust_precision(pool_1, precision_1, g)?;
        let d_before = compute_d(leverage, pool_0, pool_1)?;
        let new_pool_0 = match pool_0.checked_add(deposit_0) {
            Some(p) => p,
            None => { return Err(ContractError::Overflow); },
        };
        let new_pool_1 = match pool_1.checked_add(deposit_1) {
            Some(p) => p,
            None => { return Err(ContractError::Overflow); },
        };
        let d_after = compute_d(leverage, new_pool_0, new_pool_1)?;
        if d_before >= d_after {
            return Err(ContractError::LiquidityAmountTooSmall);
        }
        checked_multiply_ratio(total_share, d_after - d_before, d_before)
    }
}

/// What `amount` of `total_share` shares is worth of a balance: the same
/// part of it, rounded down; nothing where there are no shares.
pub open spec fn share_of(pool: u128, amount: u128, total_share: u128) -> Result<
    u128,
    ContractError,
> {
    if total_share == 0 {
        Ok(0u128)
    } else {
        multiply_ratio_spec(pool, amount, total_share)
    }
}

/// What `amount` of `total_share` shares is worth of the two balances
/// `pools`.
pub open spec fn get_share_in_assets_spec(pools: [Asset; 2], amount: u128, total_share: u128)
    -> Result<[Asset; 2], ContractError> {
    match share_of(pools[0].amount, amount, total_share) {
        Err(e) => Err(e),
        Ok(refund_0) => match share_of(pools[1].amount, amount, total_share) {
            Err(e) => Err(e),
            Ok(refund_1) => Ok(
                [
                    Asset { info: pools[0].info, amount: refund_0 },
                    Asset { info: pools[1].info, amount: refund_1 },
                ],
            ),
        },
    }
}

/// Returns what `amount` of `total_share` shares is worth of the two balances
/// `pools`. Fails with `Overflow` where a part does not fit, which takes more
/// shares than there are.
pub fn get_share_in_assets(pools: &[Asset; 2], amount: u128, total_share: u128) -> (r: Result<
    [Asset; 2],
    ContractError,
>)
    ensures
        r == get_share_in_assets_spec(*pools, amount, total_share),
{
    let refund_0 = if total_share == 0 {
        0
    } else {
        checked_multiply_ratio(pools[0].amount, amount, total_share)?
    };
    let refund_1 = if total_share == 0 {
        0
    } else {
        checked_multiply_ratio(pools[1].amount, amount, total_share)?
    };
    let r = [
        Asset { info: pools[0].info.duplicate(), amount: refund_0 },
        Asset { info: pools[1].info.duplicate(), amount: refund_1 },
    ];
    Ok(r)
}

/// A deposit that is paid back at once gives no more than it brought,
/// where the shares it minted are no larger a part of the shares before than
/// the deposit was of the balance before: `pool * share <= deposit *
/// total_share`. That holds of the first deposit into an empty pool, which
/// gets back exactly what it brought.
pub proof fn lemma_round_trip_gives_no_more(
    pool: u128,
    deposit: u128,
    total_share: u128,
    share: u128,
)
    requires
        pool + deposit <= u128::MAX,
        total_share + share <= u128::MAX,
        pool * share <= deposit * total_share,
    ensures
        share_of((pool + deposit) as u128, share, (total_share + share) as u128) is Ok,
        share_of((pool + deposit) as u128, share, (total_share + share) as u128)->Ok_0 <= deposit,
        pool == 0 && total_share == 0 && share > 0 ==> share_of(
            (pool + deposit) as u128,
            share,
            (total_share + share) as u128,
        )->Ok_0 == deposit,
{
    let t = total_share + share;
    if t > 0 {
        let p = pool + deposit;
        assert(p * share <= deposit * t) by (nonlinear_arith)
            requires
                p == pool + deposit,
                t == total_share + share,
                pool * share <= deposit * total_share,
        ;
        lemma_mul_is_commutative(deposit as int, t);
        lemma_multiply_divide_le(p * share, t, deposit as int);
        lemma_mul_nonnegative(p, share as int);
        lemma_div_pos_is_pos(p * share, t);
        if pool == 0 && total_share == 0 {
            lemma_div_multiples_vanish(deposit as int, t);
            lemma_mul_is_commutative(deposit as int, share as int);
        }
    }
}

/// Whatever a deposit is, the part of a balance that its shares are worth
/// right after it is no larger than the part by which the deposit raised the
/// invariant: with the invariant `d_before` before and `d_after` after, shares
/// minted as `total_share * (d_after - d_before) / d_before` are worth at
/// most `pool_after * (d_after - d_before) / d_after` of a balance
/// `pool_after`.
pub proof fn lemma_share_worth_bounded_by_growth(
    total_share: u128,
    d_before: u128,
    d_after: u128,
    pool_after: u128,
)
    requires
        0 < d_before < d_after,
        multiply_ratio_spec(total_share, (d_after - d_before) as u128, d_before) is Ok,
        total_share + multiply_ratio_spec(
            total_share,
            (d_after - d_before) as u128,
            d_before,
        )->Ok_0 <= u128::MAX,
    ensures
        ({
            let share = multiply_ratio_spec(total_share, (d_after - d_before) as u128, d_before)->Ok_0;
            let worth = share_of(pool_after, share, (total_share + share) as u128);
            worth is Ok && worth->Ok_0 * d_after <= pool_after * (d_after - d_before)
        }),
{
    let growth = d_after - d_before;
    let share = multiply_ratio_spec(total_share, growth as u128, d_before)->Ok_0 as int;
    let t = total_share + share;
    lemma_remainder_lower(total_share * growth, d_before as int);
    lemma_mul_nonnegative(total_share as int, growth);
    assert(share == total_share * growth / (d_before as int));
    assert(share * d_after <= t * growth) by (nonlinear_arith)
        requires
            share * d_before <= total_share * growth,
            d_after == d_before + growth,
            t == total_share + share,
    ;
    if t > 0 {
        let worth = pool_after * share / t;
        lemma_mul_nonnegative(pool_after as int, share);
        lemma_div_pos_is_pos(pool_after * share, t);
        lemma_remainder_lower(pool_after * share, t);
        assert(worth <= pool_after) by {
            lemma_mul_inequality(share, t, pool_after as int);
            lemma_mul_is_commutative(share, pool_after as int);
            lemma_mul_is_commutative(t, pool_after as int);
            lemma_multiply_divide_le(pool_after * share, t, pool_after as int);
        }
        assert(worth * d_after <= pool_after * growth) by (nonlinear_arith)
            requires
                worth * t <= pool_after * share,
                share * d_after <= t * growth,
                t > 0,
                worth >= 0,
                pool_after >= 0,
                share >= 0,
                d_after >= 0,
                growth >= 0,
        ;
    } else {
        assert(0 * d_after == 0) by (nonlinear_arith);
        lemma_mul_nonnegative(pool_after as int, growth);
    }
}

/// A deposit into a pool that has shares, paid back at once, gives of each
/// balance no larger a part than the part by which the deposit raised the
/// invariant. Both assets are taken at one precision here, so that the
/// balances enter the invariant as they are.
pub proof fn lemma_deposit_paid_back_is_bounded_by_growth(
    pool_0: u128,
    pool_1: u128,
    deposit_0: u128,
    deposit_1: u128,
    total_share: u128,
    precision: u8,
    share_precision: u8,
    amp: u64,
)
    requires
        total_share > 0,
        compute_share_spec(
            pool_0,
            precision,
            pool_1,
            precision,
            deposit_0,
            deposit_1,
            total_share,
            share_precision,
            amp,
        ) is Ok,
        total_share + compute_share_spec(
            pool_0,
            precision,
            pool_1,
            precision,
            deposit_0,
            deposit_1,
            total_share,
            share_precision,
            amp,
        )->Ok_0 <= u128::MAX,
    ensures
        ({
            let share = compute_share_spec(
                pool_0,
                precision,
                pool_1,
                precision,
                deposit_0,
                deposit_1,
                total_share,
                share_precision,
                amp,
            )->Ok_0;
            let leverage = (amp * N_COINS) as u64;
            let after_0 = (pool_0 + deposit_0) as u128;
            let after_1 = (pool_1 + deposit_1) as u128;
            let d_before = compute_d_spec(leverage, pool_0, pool_1)->Ok_0;
            let d_after = compute_d_spec(leverage, after_0, after_1)->Ok_0;
            let worth_0 = share_of(after_0, share, (total_share + share) as u128);
            let worth_1 = share_of(after_1, share, (total_share + share) as u128);
            &&& d_before < d_after
            &&& worth_0 is Ok
            &&& worth_1 is Ok
            &&& worth_0->Ok_0 * d_after <= after_0 * (d_after - d_before)
            &&& worth_1->Ok_0 * d_after <= after_1 * (d_after - d_before)
        }),
{
    let leverage = (amp * N_COINS) as u64;
    let after_0 = (pool_0 + deposit_0) as u128;
    let after_1 = (pool_1 + deposit_1) as u128;
    let d_before = compute_d_spec(leverage, pool_0, pool_1)->Ok_0;
    let d_after = compute_d_spec(leverage, after_0, after_1)->Ok_0;
    assert(greater_precision(precision, precision) == precision);
    lemma_share_worth_bounded_by_growth(total_share, d_before, d_after, after_0);
    lemma_share_worth_bounded_by_growth(total_share, d_before, d_after, after_1);
}

/// A deposit of equal amounts into a pool of equal balances, paid back at
/// once, gives of each asset no more than was brought. Here the invariant is
/// the sum of the balances before and after, so the shares minted are no
/// larger a part of the shares before than the deposit was of the balance.
pub proof fn lemma_balanced_deposit_paid_back_gives_no_more(
    pool: u128,
    deposit: u128,
    total_share: u128,
    precision: u8,
    share_precision: u8,
    amp: u64,
)
    requires
        4 <= pool,
        pool + deposit <= 0xf_ffff_ffff_ffff_ffff_ffff,
        50 <= amp <= 100_000_000,
        total_share > 0,
        compute_share_spec(
            pool,
            precision,
            pool,
            precision,
            deposit,
            deposit,
            total_share,
            share_precision,
            amp,
        ) is Ok,
        total_share + compute_share_spec(
            pool,
            precision,
            pool,
            precision,
            deposit,
            deposit,
            total_share,
            share_precision,
            amp,
        )->Ok_0 <= u128::MAX,
    ensures
        ({
            let share = compute_share_spec(
                pool,
                precision,
                pool,
                precision,
                deposit,
                deposit,
                total_share,
                share_precision,
                amp,
            )->Ok_0;
            let worth = share_of((pool + deposit) as u128, share, (total_share + share) as u128);
            worth is Ok && worth->Ok_0 <= deposit
        }),
{
    let leverage = (amp * N_COINS) as u64;
    let after = (pool + deposit) as u128;
    assert(greater_precision(precision, precision) == precision);
    lemma_compute_d_of_balanced_pool(leverage, pool);
    lemma_compute_d_of_balanced_pool(leverage, after);
    let share = multiply_ratio_spec(total_share, (2 * deposit) as u128, (2 * pool) as u128)->Ok_0;
    lemma_mul_nonnegative(total_share as int, 2 * deposit);
    lemma_remainder_lower(total_share * (2 * deposit), 2 * pool);
    assert(pool * share <= deposit * total_share) by (nonlinear_arith)
        requires
            share * (2 * pool) <= total_share * (2 * deposit),
    ;
    lemma_round_trip_gives_no_more(pool, deposit, total_share, share);
}

} // verus!
