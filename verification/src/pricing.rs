//! What a swap gives and costs: the amounts of both directions, the fee
//! taken from them, and the guard against too large a spread.

use crate::asset::{Asset, AssetInfo};
use crate::decimal::{Decimal, DECIMAL_FRACTIONAL};
use crate::error::ContractError;
use crate::math::{calc_ask_amount, calc_ask_amount_spec, calc_offer_amount, calc_offer_amount_spec};
use crate::precision::{adjust_precision, adjust_precision_spec};
use vstd::prelude::*;

verus! {

/// Spread that a swap tolerates where the caller names none: 0.005.
pub const DEFAULT_SLIPPAGE: u128 = 5_000_000_000_000_000;

/// Largest spread that a caller may tolerate: 0.5.
pub const MAX_ALLOWED_SLIPPAGE: u128 = 500_000_000_000_000_000;

/// The larger of two precisions.
pub open spec fn greater_precision(a: u8, b: u8) -> u8 {
    if a > b {
        a
    } else {
        b
    }
}

/// `value` at `to` digits where it was at `from >= to` digits.
pub open spec fn scale_down(value: u128, from: u8, to: u8) -> u128 {
    adjust_precision_spec(value, from, to)->Ok_0
}

/// What a swap of `offer_amount` returns, loses to spread and pays as
/// commission, each in the precision of the ask side.
///
/// The three amounts are brought to the greater of the two precisions. The
/// invariant gives the raw output. The spread is what the raw output falls
/// short of the offer; the commission is the raw output times the rate, and
/// is taken from what is returned.
pub open spec fn compute_swap_spec(
    offer_pool: u128,
    offer_precision: u8,
    ask_pool: u128,
    ask_precision: u8,
    offer_amount: u128,
    commission_rate: Decimal,
    amp: u64,
) -> Result<(u128, u128, u128), ContractError> {
    let g = greater_precision(offer_precision, ask_precision);
    match adjust_precision_spec(offer_pool, offer_precision, g) {
        Err(e) => Err(e),
        Ok(offer_pool) => match adjust_precision_spec(ask_pool, ask_precision, g) {
            Err(e) => Err(e),
            Ok(ask_pool) => match adjust_precision_spec(offer_amount, offer_precision, g) {
                Err(e) => Err(e),
                Ok(offer_amount) => match calc_ask_amount_spec(
                    offer_pool,
                    ask_pool,
                    offer_amount,
                    amp,
                ) {
                    Err(e) => Err(e),
                    Ok(raw) => match commission_rate.mul_uint_spec(raw) {
                        Err(e) => Err(e),
                        Ok(commission) => if commission > raw {
                            Err(ContractError::Overflow)
                        } else {
                            let spread = if offer_amount > raw {
                                (offer_amount - raw) as u128
                            } else {
                                0u128
                            };
                            Ok(
                                (
                                    scale_down((raw - commission) as u128, g, ask_precision),
                                    scale_down(spread, g, ask_precision),
                                    scale_down(commission, g, ask_precision),
                                ),
                            )
                        },
                    },
                },
            },
        },
    }
}

/// Returns what a swap of `offer_amount` returns, loses to spread and pays as
/// commission, in this order.
pub fn compute_swap(
    offer_pool: u128,
    offer_precision: u8,
    ask_pool: u128,
    ask_precision: u8,
    offer_amount: u128,
    commission_rate: Decimal,
    amp: u64,
) -> (r: Result<(u128, u128, u128), ContractError>)
    ensures
        r == compute_swap_spec(
            offer_pool,
            offer_precision,
            ask_pool,
            ask_precision,
            offer_amount,
            commission_rate,
            amp,
        ),
{
    let g = if offer_precision > ask_precision {
        offer_precision
    } else {
        ask_precision
    };
    let offer_pool = adjust_precision(offer_pool, offer_precision, g)?;
    let ask_pool = adjust_precision(ask_pool, ask_precision, g)?;
    let offer_amount = adjust_precision(offer_amount, offer_precision, g)?;
    let raw = calc_ask_amount(offer_pool, ask_pool, offer_amount, amp)?;
    let spread = if offer_amount > raw {
        offer_amount - raw
    } else {
        0
    };
    let commission = commission_rate.mul_uint(raw)?;
    if commission > raw {
        return Err(ContractError::Overflow);
    }
    let return_amount = adjust_precision(raw - commission, g, ask_precision)?;
    let spread_amount = adjust_precision(spread, g, ask_precision)?;
    let commission_amount = adjust_precision(commission, g, ask_precision)?;
    Ok((return_amount, spread_amount, commission_amount))
}

/// The amount before the fee that leaves `ask_amount` after it: `ask_amount /
/// (1 - commission_rate)`, with the quotient of one and `1 - commission_rate`
/// rounded down to eighteen digits and the product rounded down.
pub open spec fn before_commission_spec(ask_amount: u128, commission_rate: Decimal) -> Result<
    u128,
    ContractError,
> {
    if commission_rate.atomics > DECIMAL_FRACTIONAL {
        Err(ContractError::Overflow)
    } else {
        match (Decimal {
            atomics: (DECIMAL_FRACTIONAL - commission_rate.atomics) as u128,
        }).inv_spec() {
            Err(e) => Err(e),
            Ok(inv) => inv.mul_uint_spec(ask_amount),
        }
    }
}

/// What has to be offered for a swap to return `ask_amount` after the fee,
/// with the spread and the commission of that swap; the offer in the
/// precision of the offer side, the other two in that of the ask side.
///
/// The three amounts are brought to the greater of the two precisions. The
/// amount asked for is raised to what it is before the fee; the invariant
/// gives the offer for that. The spread is what the offer exceeds it by; the
/// commission is that amount times the rate.
pub open spec fn compute_offer_amount_spec(
    offer_pool: u128,
    offer_precision: u8,
    ask_pool: u128,
    ask_precision: u8,
    ask_amount: u128,
    commission_rate: Decimal,
    amp: u64,
) -> Result<(u128, u128, u128), ContractError> {
    let g = greater_precision(offer_precision, ask_precision);
    match adjust_precision_spec(offer_pool, offer_precision, g) {
        Err(e) => Err(e),
        Ok(offer_pool) => match adjust_precision_spec(ask_pool, ask_precision, g) {
            Err(e) => Err(e),
            Ok(ask_pool) => match adjust_precision_spec(ask_amount, ask_precision, g) {
                Err(e) => Err(e),
                Ok(ask_amount) => match before_commission_spec(ask_amount, commission_rate) {
                    Err(e) => Err(e),
                    Ok(before) => match calc_offer_amount_spec(offer_pool, ask_pool, before, amp) {
                        Err(e) => Err(e),
                        Ok(offer) => match commission_rate.mul_uint_spec(before) {
                            Err(e) => Err(e),
                            Ok(commission) => {
                                let spread = if offer > before {
                                    (offer - before) as u128
                                } else {
                                    0u128
                                };
                                Ok(
                                    (
                                        scale_down(offer, g, offer_precision),
                                        scale_down(spread, g, ask_precision),
                                        scale_down(commission, g, ask_precision),
                                    ),
                                )
                            },
                        },
                    },
                },
            },
        },
    }
}

/// Returns what has to be offered for a swap to return `ask_amount` after the
/// fee, and the spread and the commission of that swap, in this order.
pub fn compute_offer_amount(
    offer_pool: u128,
    offer_precision: u8,
    ask_pool: u128,
    ask_precision: u8,
    ask_amount: u128,
    commission_rate: Decimal,
    amp: u64,
) -> (r: Result<(u128, u128, u128), ContractError>)
    ensures
        r == compute_offer_amount_spec(
            offer_pool,
            offer_precision,
            ask_pool,
            ask_precision,
            ask_amount,
            commission_rate,
            amp,
        ),
{
    let g = if offer_precision > ask_precision {
        offer_precision
    } else {
        ask_precision
    };
    let offer_pool = adjust_precision(offer_pool, offer_precision, g)?;
    let ask_pool = adjust_precision(ask_pool, ask_precision, g)?;
    let ask_amount = adjust_precision(ask_amount, ask_precision, g)?;
    if commission_rate.atomics > DECIMAL_FRACTIONAL {
        return Err(ContractError::Overflow);
    }
    let one_minus_commission = Decimal::raw(DECIMAL_FRACTIONAL - commission_rate.atomics);
    let inv_one_minus_commission = one_minus_commission.inv()?;
    let before_commission_deduction = inv_one_minus_commission.mul_uint(ask_amount)?;
    let offer = calc_offer_amount(offer_pool, ask_pool, before_commission_deduction, amp)?;
    let spread = if offer > before_commission_deduction {
        offer - before_commission_deduction
    } else {
        0
    };
    let commission = commission_rate.mul_uint(before_commission_deduction)?;
    let offer_amount = adjust_precision(offer, g, offer_precision)?;
    let spread_amount = adjust_precision(spread, g, ask_precision)?;
    let commission_amount = adjust_precision(commission, g, ask_precision)?;
    Ok((offer_amount, spread_amount, commission_amount))
}

/// The spread that a swap is held to: what the caller names, or
/// `DEFAULT_SLIPPAGE`.
pub open spec fn tolerated_spread(max_spread: Option<Decimal>) -> Decimal {
    match max_spread {
        Some(s) => s,
        None => Decimal { atomics: DEFAULT_SLIPPAGE },
    }
}

/// Whether a swap stays within the spread it is held to.
///
/// With a belief price, the swap is expected to return `offer_amount /
/// belief_price`. It fails with `MaxSpreadAssertion` where it returns less and
/// the shortfall, as a part of what was expected, is above the tolerated
/// spread. Without one, it fails so where `spread_amount`, as a part of
/// `return_amount + spread_amount`, is above the tolerated spread. A
/// tolerated spread above `MAX_ALLOWED_SLIPPAGE` fails with
/// `AllowedSpreadAssertion` before anything else.
pub open spec fn assert_max_spread_spec(
    belief_price: Option<Decimal>,
    max_spread: Option<Decimal>,
    offer_amount: u128,
    return_amount: u128,
    spread_amount: u128,
) -> Result<(), ContractError> {
    let tolerated = tolerated_spread(max_spread);
    if tolerated.atomics > MAX_ALLOWED_SLIPPAGE {
        Err(ContractError::AllowedSpreadAssertion)
    } else {
        match belief_price {
            Some(price) => match price.inv_spec() {
                Err(e) => Err(e),
                Ok(inv) => match inv.mul_uint_spec(offer_amount) {
                    Err(e) => Err(e),
                    Ok(expected) => if return_amount < expected {
                        match Decimal::from_ratio_spec(
                            (expected - return_amount) as u128,
                            expected,
                        ) {
                            Err(e) => Err(e),
                            Ok(ratio) => if ratio.atomics > tolerated.atomics {
                                Err(ContractError::MaxSpreadAssertion)
                            } else {
                                Ok(())
                            },
                        }
                    } else {
                        Ok(())
                    },
                },
            },
            None => if return_amount + spread_amount > u128::MAX {
                Err(ContractError::Overflow)
            } else {
                match Decimal::from_ratio_spec(
                    spread_amount,
                    (return_amount + spread_amount) as u128,
                ) {
                    Err(e) => Err(e),
                    Ok(ratio) => if ratio.atomics > tolerated.atomics {
                        Err(ContractError::MaxSpreadAssertion)
                    } else {
                        Ok(())
                    },
                }
            },
        }
    }
}

/// Checks that a swap stays within the spread it is held to.
pub fn assert_max_spread(
    belief_price: Option<Decimal>,
    max_spread: Option<Decimal>,
    offer_amount: u128,
    return_amount: u128,
    spread_amount: u128,
) -> (r: Result<(), ContractError>)
    ensures
        r == assert_max_spread_spec(
            belief_price,
            max_spread,
            offer_amount,
            return_amount,
            spread_amount,
        ),
{
    let tolerated = match max_spread {
        Some(s) => s,
        None => Decimal::raw(DEFAULT_SLIPPAGE),
    };
    if tolerated.atomics > MAX_ALLOWED_SLIPPAGE {
        return Err(ContractError::AllowedSpreadAssertion);
    }
    match belief_price {
        Some(price) => {
            let expected_return = price.inv()?.mul_uint(offer_amount)?;
            if return_amount < expected_return {
                let ratio = Decimal::from_ratio(expected_return - return_amount, expected_return)?;
                if ratio.atomics > tolerated.atomics {
                    return Err(ContractError::MaxSpreadAssertion);
                }
            }
        },
        None => {
            let total = match return_amount.checked_add(spread_amount) {
                Some(t) => t,
                None => { return Err(ContractError::Overflow); },
            };
            let ratio = Decimal::from_ratio(spread_amount, total)?;
            if ratio.atomics > tolerated.atomics {
                return Err(ContractError::MaxSpreadAssertion);
            }
        },
    }
    Ok(())
}

/// The part of a commission that goes to the maker: the commission times the
/// rate, rounded down, in the asset of the pool; nothing where that is zero.
pub open spec fn calculate_maker_fee_spec(
    pool_info: AssetInfo,
    commission_amount: u128,
    maker_commission_rate: Decimal,
) -> Result<Option<Asset>, ContractError> {
    match maker_commission_rate.mul_uint_spec(commission_amount) {
        Err(e) => Err(e),
        Ok(maker_fee) => if maker_fee == 0 {
            Ok(None)
        } else {
            Ok(Some(Asset { info: pool_info, amount: maker_fee }))
        },
    }
}

/// Returns the part of a commission that goes to the maker. Fails with
/// `Overflow` where the product does not fit.
pub fn calculate_maker_fee(
    pool_info: AssetInfo,
    commission_amount: u128,
    maker_commission_rate: Decimal,
) -> (r: Result<Option<Asset>, ContractError>)
    ensures
        r == calculate_maker_fee_spec(pool_info, commission_amount, maker_commission_rate),
{
    let maker_fee = maker_commission_rate.mul_uint(commission_amount)?;
    if maker_fee == 0 {
        Ok(None)
    } else {
        Ok(Some(Asset { info: pool_info, amount: maker_fee }))
    }
}

} // verus!
