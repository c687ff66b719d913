//! The invariant of the pool and its two solvers.
//!
//! For balances `x` and `y` and a leverage `l` (the amplification times
//! the number of assets, scaled by `AMP_PRECISION`), the invariant `D` is the
//! root of
//!
//! ```text
//! l * (x + y) / AMP_PRECISION + D = l * D / AMP_PRECISION + D^3 / (4 * x * y)
//! ```
//!
//! Both solvers are Newton iterations on integers. They stop as soon as two
//! successive estimates differ by at most one. Rounding can also make the
//! estimates alternate between two values further apart, with the root in
//! between; then the smaller of the two is taken. After `ITERATIONS` rounds
//! without either, the solvers give up.
//!
//! A swap is rounded for the pool: the balance that it leaves of the asset
//! paid out, and the balance that its reverse asks of the asset paid in, are
//! each one unit above what the solver returns.

use crate::error::ContractError;
use crate::wide::{limit, U256};
use vstd::prelude::*;

verus! {

/// Number of assets in the pool.
pub const N_COINS: u8 = 2;

/// Rounds after which a solver gives up.
pub const ITERATIONS: u8 = 32;

/// Largest amplification (unscaled).
pub const MAX_AMP: u64 = 1_000_000;

/// Largest factor by which one ramp may change the amplification.
pub const MAX_AMP_CHANGE: u64 = 10;

/// Shortest time in seconds between two ramps, and shortest ramp.
pub const MIN_AMP_CHANGING_TIME: u64 = 86400;

/// Scale of a stored amplification.
pub const AMP_PRECISION: u64 = 100;

/// Whether `v` is a 256-bit number.
pub open spec fn fits(v: int) -> bool {
    0 <= v < limit()
}

/// Whether two estimates differ by at most one.
pub open spec fn close(p: int, q: int) -> bool {
    p - q <= 1 && q - p <= 1
}

/// An accepted estimate as a result: the estimate where it fits in 128 bits.
pub open spec fn narrow(v: int) -> Result<u128, ContractError> {
    if 0 <= v <= u128::MAX {
        Ok(v as u128)
    } else {
        Err(ContractError::Overflow)
    }
}

/// What a round of an iteration leads to, where `d` is the estimate, `prev`
/// the one before it, if any, and `n` the one that the step gives: `n` where
/// it differs from `d` by one at most; the smaller of `n` and `d` where the
/// step has come back to `prev`; and otherwise nothing yet.
pub open spec fn accepted(prev: Option<int>, d: int, n: int) -> Option<int> {
    if close(n, d) {
        Some(n)
    } else if prev == Some(n) {
        Some(if n <= d {
            n
        } else {
            d
        })
    } else {
        None
    }
}

/// The term `D^3 / (4 * x * y)` of the invariant at the estimate `d`, as the
/// solver rounds it: the cube over the product of twice each balance plus
/// one, in one division, so that nothing is rounded off before the end.
pub open spec fn d_product(a: int, b: int, d: int) -> int {
    d * d * d / ((2 * a + 1) * (2 * b + 1))
}

/// Numerator of the Newton step for `D`.
pub open spec fn step_numerator(l: int, s: int, a: int, b: int, d: int) -> int {
    (l * s / 100 + 2 * d_product(a, b, d)) * d
}

/// Denominator of the Newton step for `D`.
pub open spec fn step_denominator(l: int, a: int, b: int, d: int) -> int {
    d * (l - 100) / 100 + 3 * d_product(a, b, d)
}

/// Whether every intermediate value of the Newton step for `D` is a 256-bit
/// number.
pub open spec fn step_fits(l: int, s: int, a: int, b: int, d: int) -> bool {
    &&& l >= 100
    &&& fits((2 * a + 1) * (2 * b + 1))
    &&& fits(d * d * d)
    &&& fits(l * s / 100 + 2 * d_product(a, b, d))
    &&& fits(step_numerator(l, s, a, b, d))
    &&& fits(d * (l - 100))
    &&& fits(3 * d_product(a, b, d))
    &&& fits(step_denominator(l, a, b, d))
}

/// One Newton step for `D` from the estimate `d`.
pub open spec fn next_d(l: int, s: int, a: int, b: int, d: int) -> Result<int, ContractError> {
    if !step_fits(l, s, a, b, d) {
        Err(ContractError::Overflow)
    } else if step_denominator(l, a, b, d) == 0 {
        Err(ContractError::DivideByZero)
    } else {
        Ok(step_numerator(l, s, a, b, d) / step_denominator(l, a, b, d))
    }
}

/// What the iteration for `D` gives from the estimate `d`, which came after
/// `prev`, with `rounds` rounds left.
pub open spec fn d_from(
    l: int,
    s: int,
    a: int,
    b: int,
    prev: Option<int>,
    d: int,
    rounds: nat,
) -> Result<u128, ContractError>
    decreases rounds,
{
    if rounds == 0 {
        Err(ContractError::NotConverged)
    } else {
        match next_d(l, s, a, b, d) {
            Err(e) => Err(e),
            Ok(n) => match accepted(prev, d, n) {
                Some(r) => narrow(r),
                None => d_from(l, s, a, b, Some(d), n, (rounds - 1) as nat),
            },
        }
    }
}

/// The invariant `D` of the balances `amount_a` and `amount_b`.
pub open spec fn compute_d_spec(leverage: u64, amount_a: u128, amount_b: u128) -> Result<
    u128,
    ContractError,
> {
    let s = amount_a + amount_b;
    if s > u128::MAX {
        Err(ContractError::Overflow)
    } else if s == 0 {
        Ok(0u128)
    } else {
        d_from(leverage as int, s, amount_a as int, amount_b as int, None, s, ITERATIONS as nat)
    }
}

/// A product of bounded factors is bounded by the product of the bounds.
pub proof fn lemma_mul_bound(x: int, y: int, bx: int, by: int)
    by (nonlinear_arith)
    requires
        0 <= x <= bx,
        0 <= y <= by,
    ensures
        0 <= x * y <= bx * by,
{
}

/// The value of the estimate before the last, if there is one.
pub open spec fn before(prev: Option<U256>) -> Option<int> {
    match prev {
        Some(p) => Some(p@ as int),
        None => None,
    }
}

/// Returns what a round of an iteration leads to.
fn accept(prev: Option<U256>, d: U256, next: U256) -> (r: Option<U256>)
    ensures
        match accepted(before(prev), d@ as int, next@ as int) {
            Some(v) => r is Some && r->0@ == v,
            None => r is None,
        },
{
    if next.is_within_one(d) {
        return Some(next);
    }
    match prev {
        Some(p) => if next.is_same(p) {
            Some(next.smaller(d))
        } else {
            None
        },
        None => None,
    }
}

/// One Newton step for `D`. `ab` is the product of twice each balance plus
/// one.
fn calculate_step(
    d: U256,
    leverage: u64,
    sum_x: u128,
    ab: U256,
    Ghost(a): Ghost<int>,
    Ghost(b): Ghost<int>,
) -> (r: Result<U256, ContractError>)
    requires
        ab@ == (2 * a + 1) * (2 * b + 1),
        a >= 0,
        b >= 0,
    ensures
        match next_d(leverage as int, sum_x as int, a, b, d@ as int) {
            Ok(n) => r is Ok && r->Ok_0@ == n,
            Err(e) => r == Err::<U256, ContractError>(e),
        },
{
    let ghost l = leverage as int;
    let ghost s = sum_x as int;
    let ghost dv = d@ as int;
    if leverage < AMP_PRECISION {
        return Err(ContractError::Overflow);
    }
    proof {
        ab.lemma_bounded();
        lemma_mul_bound(1, 1, 2 * a + 1, 2 * b + 1);
    }
    let d3 = match d.checked_mul(d) {
        Some(d2) => d2.try_mul(d)?,
        None => {
            proof {
                if dv >= 1 {
                    lemma_mul_bound(dv * dv, 1, dv * dv, dv);
                } else {
                    assert(dv * dv == 0) by (nonlinear_arith)
                        requires
                            dv == 0,
                    ;
                }
            }
            return Err(ContractError::Overflow);
        },
    };
    let dp = d3.try_div(ab)?;
    assert(dp@ == d_product(a, b, dv));
    proof {
        lemma_mul_bound(l, s, u64::MAX as int, u128::MAX as int);
    }
    let ls = U256::from_u128(leverage as u128).try_mul(U256::from_u128(sum_x))?;
    let leverage_mul = ls.try_div(U256::from_u128(AMP_PRECISION as u128))?;
    let dp2 = U256::from_u128(2).try_mul(dp)?;
    let numerator = leverage_mul.try_add(dp2)?.try_mul(d)?;
    let lm = d.try_mul(U256::from_u128((leverage - AMP_PRECISION) as u128))?;
    let leverage_sub = lm.try_div(U256::from_u128(AMP_PRECISION as u128))?;
    let dp3 = U256::from_u128(3).try_mul(dp)?;
    let denominator = leverage_sub.try_add(dp3)?;
    numerator.try_div(denominator)
}

/// Computes the invariant `D` of the balances `amount_a` and `amount_b`
/// by Newton's method from the first estimate `amount_a + amount_b`.
///
/// An estimate is accepted when it differs from the one before by one at
/// most. Where the estimates alternate between two values further apart,
/// which rounding brings about on pools out of balance at a low
/// amplification, the smaller of the two is accepted. The call fails with
/// `NotConverged` where neither happens in `ITERATIONS` rounds, and with
/// `Overflow` or `DivideByZero` where a step cannot be taken. A step takes
/// the cube of the estimate, so the sum of the balances has to stay below
/// two to the power 85.
pub fn compute_d(leverage: u64, amount_a: u128, amount_b: u128) -> (r: Result<
    u128,
    ContractError,
>)
    ensures
        r == compute_d_spec(leverage, amount_a, amount_b),
{
    let sum_x = match amount_a.checked_add(amount_b) {
        Some(s) => s,
        None => { return Err(ContractError::Overflow); },
    };
    if sum_x == 0 {
        return Ok(0);
    }
    let two = U256::from_u128(2);
    let one = U256::from_u128(1);
    let a2 = two.try_mul(U256::from_u128(amount_a))?.try_add(one)?;
    let b2 = two.try_mul(U256::from_u128(amount_b))?.try_add(one)?;
    let ab = a2.try_mul(b2)?;
    let mut d = U256::from_u128(sum_x);
    let mut prev: Option<U256> = None;
    let mut i: u8 = 0;
    while i < ITERATIONS
        invariant
            i <= ITERATIONS,
            ab@ == (2 * amount_a + 1) * (2 * amount_b + 1),
            sum_x == amount_a + amount_b,
            d_from(
                leverage as int,
                sum_x as int,
                amount_a as int,
                amount_b as int,
                before(prev),
                d@ as int,
                (ITERATIONS - i) as nat,
            ) == compute_d_spec(leverage, amount_a, amount_b),
        decreases ITERATIONS - i,
    {
        let next = calculate_step(
            d,
            leverage,
            sum_x,
            ab,
            Ghost(amount_a as int),
            Ghost(amount_b as int),
        )?;
        match accept(prev, d, next) {
            Some(r) => { return r.try_to_u128(); },
            None => {},
        }
        prev = Some(d);
        d = next;
        i = i + 1;
    }
    Err(ContractError::NotConverged)
}

/// The constant term of the equation for the other balance: with the balance
/// `x` and the invariant `d`, `D^3 / (4 * x * l)`, scaled.
pub open spec fn y_c(l: int, x: int, d: int) -> int {
    d * d * d * 100 / (4 * x * l)
}

/// The linear term of the equation for the other balance.
pub open spec fn y_b(l: int, x: int, d: int) -> int {
    x + d * 100 / l
}

/// Whether every intermediate value of the Newton step for the other balance
/// is a 256-bit number.
pub open spec fn y_step_fits(b: int, c: int, d: int, y: int) -> bool {
    &&& fits(y * y)
    &&& fits(y * y + c)
    &&& fits(2 * y + b)
    &&& 2 * y + b >= d
}

/// One Newton step for the other balance from the estimate `y`.
pub open spec fn next_y(b: int, c: int, d: int, y: int) -> Result<int, ContractError> {
    if !y_step_fits(b, c, d, y) {
        Err(ContractError::Overflow)
    } else if 2 * y + b - d == 0 {
        Err(ContractError::DivideByZero)
    } else {
        Ok((y * y + c) / (2 * y + b - d))
    }
}

/// What the iteration for the other balance gives from the estimate `y`,
/// which came after `prev`, with `rounds` rounds left.
pub open spec fn y_from(b: int, c: int, d: int, prev: Option<int>, y: int, rounds: nat) -> Result<
    u128,
    ContractError,
>
    decreases rounds,
{
    if rounds == 0 {
        Err(ContractError::NotConverged)
    } else {
        match next_y(b, c, d, y) {
            Err(e) => Err(e),
            Ok(n) => match accepted(prev, y, n) {
                Some(r) => narrow(r),
                None => y_from(b, c, d, Some(y), n, (rounds - 1) as nat),
            },
        }
    }
}

/// The balance of the other asset that keeps the invariant at `d_val` when one
/// balance is `new_source_amount`.
pub open spec fn compute_new_balance_out_spec(
    leverage: u64,
    new_source_amount: u128,
    d_val: u128,
) -> Result<u128, ContractError> {
    let l = leverage as int;
    let x = new_source_amount as int;
    let d = d_val as int;
    if !fits(d * d * d * 100) {
        Err(ContractError::Overflow)
    } else if 4 * x * l == 0 {
        Err(ContractError::DivideByZero)
    } else {
        y_from(y_b(l, x, d), y_c(l, x, d), d, None, d, ITERATIONS as nat)
    }
}

/// One Newton step for the other balance.
fn calculate_y_step(y: U256, b: U256, c: U256, d: U256) -> (r: Result<U256, ContractError>)
    ensures
        match next_y(b@ as int, c@ as int, d@ as int, y@ as int) {
            Ok(n) => r is Ok && r->Ok_0@ == n,
            Err(e) => r == Err::<U256, ContractError>(e),
        },
{
    let numerator = y.try_mul(y)?.try_add(c)?;
    let denominator = U256::from_u128(2).try_mul(y)?.try_add(b)?.try_sub(d)?;
    numerator.try_div(denominator)
}

/// Computes the balance of the other asset that keeps the invariant at
/// `d_val` when one balance is `new_source_amount`, by Newton's method from
/// the first estimate `d_val`.
///
/// Estimates are accepted as for the invariant itself: when two in a row
/// differ by one at most, or, where they alternate, the smaller of the two.
pub fn compute_new_balance_out(leverage: u64, new_source_amount: u128, d_val: u128) -> (r: Result<
    u128,
    ContractError,
>)
    ensures
        r == compute_new_balance_out_spec(leverage, new_source_amount, d_val),
{
    let ghost l = leverage as int;
    let ghost x = new_source_amount as int;
    let ghost dv = d_val as int;
    let d = U256::from_u128(d_val);
    let hundred = U256::from_u128(AMP_PRECISION as u128);
    let lev = U256::from_u128(leverage as u128);
    proof {
        lemma_mul_bound(dv, dv, u128::MAX as int, u128::MAX as int);
        lemma_mul_bound(dv, 100, u128::MAX as int, 100);
        lemma_mul_bound(4 * x, l, 4 * (u128::MAX as int), u64::MAX as int);
    }
    let d2 = d.try_mul(d)?;
    let d3 = match d2.checked_mul(d) {
        Some(v) => v,
        None => {
            proof {
                lemma_mul_bound(dv * dv * dv, 100, dv * dv * dv, 100);
            }
            return Err(ContractError::Overflow);
        },
    };
    let d3s = d3.try_mul(hundred)?;
    let xl = U256::from_u128(4).try_mul(U256::from_u128(new_source_amount))?.try_mul(lev)?;
    let c = d3s.try_div(xl)?;
    assert(c@ == y_c(l, x, dv));
    assert(l != 0) by (nonlinear_arith)
        requires
            4 * x * l != 0,
    ;
    let dl = d.try_mul(hundred)?.try_div(lev)?;
    proof {
        vstd::arithmetic::div_mod::lemma_div_is_ordered_by_denominator(dv * 100, 1, l);
        vstd::arithmetic::div_mod::lemma_div_basics(dv * 100);
    }
    let b = U256::from_u128(new_source_amount).try_add(dl)?;
    assert(b@ == y_b(l, x, dv));
    let mut y = d;
    let mut prev: Option<U256> = None;
    let mut i: u8 = 0;
    while i < ITERATIONS
        invariant
            i <= ITERATIONS,
            d@ == d_val,
            y_from(
                b@ as int,
                c@ as int,
                d@ as int,
                before(prev),
                y@ as int,
                (ITERATIONS - i) as nat,
            ) == compute_new_balance_out_spec(leverage, new_source_amount, d_val),
        decreases ITERATIONS - i,
    {
        let next = calculate_y_step(y, b, c, d)?;
        match accept(prev, y, next) {
            Some(r) => { return r.try_to_u128(); },
            None => {},
        }
        prev = Some(y);
        y = next;
        i = i + 1;
    }
    Err(ContractError::NotConverged)
}

/// What a swap of `offer_amount` gives of the other asset, before fees: the
/// balance asked from, less the balance that keeps the invariant, less one
/// unit for the pool; nothing where that balance is the whole of it.
pub open spec fn calc_ask_amount_spec(
    offer_pool: u128,
    ask_pool: u128,
    offer_amount: u128,
    amp: u64,
) -> Result<u128, ContractError> {
    if amp * 2 > u64::MAX || offer_pool + offer_amount > u128::MAX {
        Err(ContractError::Overflow)
    } else {
        match compute_d_spec((amp * 2) as u64, offer_pool, ask_pool) {
            Err(e) => Err(e),
            Ok(d) => match compute_new_balance_out_spec(
                (amp * 2) as u64,
                (offer_pool + offer_amount) as u128,
                d,
            ) {
                Err(e) => Err(e),
                Ok(y) => if y > ask_pool {
                    Err(ContractError::Overflow)
                } else if y == ask_pool {
                    Ok(0u128)
                } else {
                    Ok((ask_pool - y - 1) as u128)
                },
            },
        }
    }
}

/// Computes what a swap of `offer_amount` gives of the other asset, before
/// fees: the invariant is held, the offer side grows by `offer_amount`, and
/// the ask side shrinks by the result.
///
/// The result is rounded down, for the pool: the ask side is left one unit
/// above the balance that the solver finds, so that what the solver rounds
/// off is never paid out. A swap that would leave the ask side where it is
/// gives nothing; one that would need it to grow fails with `Overflow`.
pub fn calc_ask_amount(offer_pool: u128, ask_pool: u128, offer_amount: u128, amp: u64) -> (r:
    Result<u128, ContractError>)
    ensures
        r == calc_ask_amount_spec(offer_pool, ask_pool, offer_amount, amp),
{
    let leverage = match amp.checked_mul(N_COINS as u64) {
        Some(l) => l,
        None => { return Err(ContractError::Overflow); },
    };
    let new_offer_pool = match offer_pool.checked_add(offer_amount) {
        Some(p) => p,
        None => { return Err(ContractError::Overflow); },
    };
    let d = compute_d(leverage, offer_pool, ask_pool)?;
    let new_ask_pool = compute_new_balance_out(leverage, new_offer_pool, d)?;
    if new_ask_pool > ask_pool {
        Err(ContractError::Overflow)
    } else if new_ask_pool == ask_pool {
        Ok(0)
    } else {
        Ok(ask_pool - new_ask_pool - 1)
    }
}

/// What has to be offered for a swap to give `ask_amount` of the other asset,
/// before fees: the balance of the offered asset that keeps the invariant,
/// less the balance paid into, plus one unit for the pool.
pub open spec fn calc_offer_amount_spec(
    offer_pool: u128,
    ask_pool: u128,
    ask_amount: u128,
    amp: u64,
) -> Result<u128, ContractError> {
    if amp * 2 > u64::MAX || ask_amount > ask_pool {
        Err(ContractError::Overflow)
    } else {
        match compute_d_spec((amp * 2) as u64, offer_pool, ask_pool) {
            Err(e) => Err(e),
            Ok(d) => match compute_new_balance_out_spec(
                (amp * 2) as u64,
                (ask_pool - ask_amount) as u128,
                d,
            ) {
                Err(e) => Err(e),
                Ok(x) => if x < offer_pool || x - offer_pool + 1 > u128::MAX {
                    Err(ContractError::Overflow)
                } else {
                    Ok((x - offer_pool + 1) as u128)
                },
            },
        }
    }
}

/// Computes what has to be offered for a swap to give `ask_amount` of the
/// other asset, before fees: the invariant is held, the ask side shrinks by
/// `ask_amount`, and the offer side grows by the result.
///
/// The result is rounded up, for the pool: one unit above what the solver
/// finds. Asking for the whole ask side fails with `DivideByZero`, for no
/// offer buys it.
pub fn calc_offer_amount(offer_pool: u128, ask_pool: u128, ask_amount: u128, amp: u64) -> (r:
    Result<u128, ContractError>)
    ensures
        r == calc_offer_amount_spec(offer_pool, ask_pool, ask_amount, amp),
{
    let leverage = match amp.checked_mul(N_COINS as u64) {
        Some(l) => l,
        None => { return Err(ContractError::Overflow); },
    };
    let new_ask_pool = match ask_pool.checked_sub(ask_amount) {
        Some(p) => p,
        None => { return Err(ContractError::Overflow); },
    };
    let d = compute_d(leverage, offer_pool, ask_pool)?;
    let new_offer_pool = compute_new_balance_out(leverage, new_ask_pool, d)?;
    if new_offer_pool < offer_pool {
        return Err(ContractError::Overflow);
    }
    match (new_offer_pool - offer_pool).checked_add(1) {
        Some(v) => Ok(v),
        None => Err(ContractError::Overflow),
    }
}

} // verus!
