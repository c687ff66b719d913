//! The price oracle: for each asset, the sum over time of its price in the
//! other. A reader takes the difference of two samples and divides by the
//! time between them, so the sums may wrap around.

use crate::amp::{compute_current_amp, current_amp_spec};
use crate::error::ContractError;
use crate::math::{calc_ask_amount, calc_ask_amount_spec};
use crate::precision::{adjust_precision, adjust_precision_spec};
use crate::pricing::{greater_precision, scale_down};
use crate::state::Config;
use vstd::prelude::*;

verus! {

/// Decimal digits of an accumulated price.
pub const TWAP_PRECISION: u8 = 6;

/// The sum of two numbers, less two to the power 128 where it does not fit.
pub open spec fn wrapping_sum(a: u128, b: u128) -> u128 {
    if a + b > u128::MAX {
        (a + b - 0x1_0000_0000_0000_0000_0000_0000_0000_0000) as u128
    } else {
        (a + b) as u128
    }
}

/// What `elapsed` seconds at the balances `offer_pool` and `ask_pool` add to
/// the accumulated price of the offered asset: `elapsed` times what a swap of
/// `unit` returns before fees, brought from `precision` digits to
/// `TWAP_PRECISION`.
pub open spec fn price_growth_spec(
    offer_pool: u128,
    ask_pool: u128,
    unit: u128,
    amp: u64,
    elapsed: u64,
    precision: u8,
) -> Result<u128, ContractError> {
    match calc_ask_amount_spec(offer_pool, ask_pool, unit, amp) {
        Err(e) => Err(e),
        Ok(price) => if elapsed * price > u128::MAX {
            Err(ContractError::Overflow)
        } else {
            Ok(scale_down((elapsed * price) as u128, precision, TWAP_PRECISION))
        },
    }
}

/// Returns what `elapsed` seconds add to the accumulated price of the
/// offered asset.
fn price_growth(
    offer_pool: u128,
    ask_pool: u128,
    unit: u128,
    amp: u64,
    elapsed: u64,
    precision: u8,
) -> (r: Result<u128, ContractError>)
    requires
        precision >= TWAP_PRECISION,
    ensures
        r == price_growth_spec(offer_pool, ask_pool, unit, amp, elapsed, precision),
{
    let price = calc_ask_amount(offer_pool, ask_pool, unit, amp)?;
    let sum = match (elapsed as u128).checked_mul(price) {
        Some(s) => s,
        None => { return Err(ContractError::Overflow); },
    };
    adjust_precision(sum, precision, TWAP_PRECISION)
}

/// The accumulated prices and the time of the oracle after an update at
/// `block_time`, where `x` and `y` are the balances since the last update.
///
/// There is no update where `block_time` is not after the last one.
/// Otherwise the time moves on, and where both balances are above zero each
/// accumulated price grows, wrapping around, by the time since the last
/// update times the price that the invariant gives for one unit of the
/// asset.
pub open spec fn accumulate_prices_spec(
    config: Config,
    block_time: u64,
    x: u128,
    x_precision: u8,
    y: u128,
    y_precision: u8,
) -> Result<Option<(u128, u128, u64)>, ContractError> {
    if block_time <= config.block_time_last {
        Ok(None)
    } else {
        let g = greater_precision(greater_precision(x_precision, y_precision), TWAP_PRECISION);
        let elapsed = (block_time - config.block_time_last) as u64;
        match adjust_precision_spec(x, x_precision, g) {
            Err(e) => Err(e),
            Ok(x) => match adjust_precision_spec(y, y_precision, g) {
                Err(e) => Err(e),
                Ok(y) => if x == 0 || y == 0 {
                    Ok(
                        Some(
                            (
                                config.price0_cumulative_last,
                                config.price1_cumulative_last,
                                block_time,
                            ),
                        ),
                    )
                } else {
                    match current_amp_spec(config, block_time) {
                        Err(e) => Err(e),
                        Ok(amp) => match adjust_precision_spec(1, 0, g) {
                            Err(e) => Err(e),
                            Ok(unit) => match price_growth_spec(x, y, unit, amp, elapsed, g) {
                                Err(e) => Err(e),
                                Ok(growth_0) => match price_growth_spec(
                                    y,
                                    x,
                                    unit,
                                    amp,
                                    elapsed,
                                    g,
                                ) {
                                    Err(e) => Err(e),
                                    Ok(growth_1) => Ok(
                                        Some(
                                            (
                                                wrapping_sum(
                                                    config.price0_cumulative_last,
                                                    growth_0,
                                                ),
                                                wrapping_sum(
                                                    config.price1_cumulative_last,
                                                    growth_1,
                                                ),
                                                block_time,
                                            ),
                                        ),
                                    ),
                                },
                            },
                        },
                    }
                },
            },
        }
    }
}

/// Returns the accumulated prices and the time of the oracle after an update
/// at `block_time`, or nothing where there is no update.
pub fn accumulate_prices(
    block_time: u64,
    config: &Config,
    x: u128,
    x_precision: u8,
    y: u128,
    y_precision: u8,
) -> (r: Result<Option<(u128, u128, u64)>, ContractError>)
    ensures
        r == accumulate_prices_spec(*config, block_time, x, x_precision, y, y_precision),
{
    if block_time <= config.block_time_last {
        return Ok(None);
    }
    let xy = if x_precision > y_precision {
        x_precision
    } else {
        y_precision
    };
    let g = if xy > TWAP_PRECISION {
        xy
    } else {
        TWAP_PRECISION
    };
    let x = adjust_precision(x, x_precision, g)?;
    let y = adjust_precision(y, y_precision, g)?;
    let elapsed = block_time - config.block_time_last;
    let mut pcl0 = config.price0_cumulative_last;
    let mut pcl1 = config.price1_cumulative_last;
    if x != 0 && y != 0 {
        let current_amp = compute_current_amp(config, block_time)?;
        let unit = adjust_precision(1, 0, g)?;
        let growth_0 = price_growth(x, y, unit, current_amp, elapsed, g)?;
        let growth_1 = price_growth(y, x, unit, current_amp, elapsed, g)?;
        pcl0 = pcl0.wrapping_add(growth_0);
        pcl1 = pcl1.wrapping_add(growth_1);
    }
    Ok(Some((pcl0, pcl1, block_time)))
}

/// The state after an update of the oracle at `block_time`.
pub open spec fn update_oracle_spec(
    config: Config,
    block_time: u64,
    x: u128,
    x_precision: u8,
    y: u128,
    y_precision: u8,
) -> Result<Config, ContractError> {
    match accumulate_prices_spec(config, block_time, x, x_precision, y, y_precision) {
        Err(e) => Err(e),
        Ok(None) => Ok(config),
        Ok(Some((price0, price1, time))) => Ok(
            Config {
                price0_cumulative_last: price0,
                price1_cumulative_last: price1,
                block_time_last: time,
                ..config
            },
        ),
    }
}

/// Returns the state after an update of the oracle at `block_time`; the ramp
/// is left as it is.
pub fn update_oracle(
    config: Config,
    block_time: u64,
    x: u128,
    x_precision: u8,
    y: u128,
    y_precision: u8,
) -> (r: Result<Config, ContractError>)
    ensures
        r == update_oracle_spec(config, block_time, x, x_precision, y, y_precision),
{
    match accumulate_prices(block_time, &config, x, x_precision, y, y_precision)? {
        None => Ok(config),
        Some((price0, price1, time)) => Ok(
            Config {
                price0_cumulative_last: price0,
                price1_cumulative_last: price1,
                block_time_last: time,
                ..config
            },
        ),
    }
}

/// An update of the oracle leaves the ramp as it is, so a well-formed state
/// stays well formed, and the time of the oracle never goes back.
pub proof fn lemma_update_oracle_keeps_ramp(
    config: Config,
    block_time: u64,
    x: u128,
    x_precision: u8,
    y: u128,
    y_precision: u8,
)
    ensures
        update_oracle_spec(config, block_time, x, x_precision, y, y_precision) matches Ok(after)
            ==> {
            &&& after.init_amp == config.init_amp
            &&& after.init_amp_time == config.init_amp_time
            &&& after.next_amp == config.next_amp
            &&& after.next_amp_time == config.next_amp_time
            &&& after.block_time_last >= config.block_time_last
            &&& (config.wf() ==> after.wf())
        },
{
}

} // verus!
