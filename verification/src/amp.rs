//! The amplification ramp: its value at a time, and the two ways to change
//! it.

use crate::error::ContractError;
use crate::math::{AMP_PRECISION, MAX_AMP, MAX_AMP_CHANGE, MIN_AMP_CHANGING_TIME};
use crate::state::Config;
use vstd::arithmetic::div_mod::{lemma_div_is_ordered, lemma_div_pos_is_pos, lemma_multiply_divide_le};
use vstd::arithmetic::mul::{lemma_mul_inequality, lemma_mul_is_commutative, lemma_mul_nonnegative};
use vstd::prelude::*;

verus! {

/// The part of `range` that is reached after `elapsed` of `total` seconds,
/// rounded down.
pub open spec fn ramp_part(range: int, elapsed: int, total: int) -> int {
    range * elapsed / total
}

/// The amplification in effect at `block_time`: `next_amp` once the ramp has
/// ended, and before that the point on the line from `init_amp` to
/// `next_amp`, rounded towards `init_amp`. A time before the start of a ramp
/// that has not ended is an error.
pub open spec fn current_amp_spec(config: Config, block_time: u64) -> Result<u64, ContractError> {
    if block_time < config.next_amp_time {
        if block_time < config.init_amp_time {
            Err(ContractError::Overflow)
        } else {
            let elapsed = block_time - config.init_amp_time;
            let total = config.next_amp_time - config.init_amp_time;
            if config.next_amp > config.init_amp {
                Ok(
                    (config.init_amp + ramp_part(
                        config.next_amp - config.init_amp,
                        elapsed,
                        total,
                    )) as u64,
                )
            } else {
                Ok(
                    (config.init_amp - ramp_part(
                        config.init_amp - config.next_amp,
                        elapsed,
                        total,
                    )) as u64,
                )
            }
        }
    } else {
        Ok(config.next_amp)
    }
}

/// The part of a range reached during a ramp lies within the range, and a
/// later time reaches at least as much.
pub proof fn lemma_ramp_part(range: int, e1: int, e2: int, total: int)
    requires
        0 <= range,
        0 <= e1 <= e2 <= total,
        0 < total,
    ensures
        0 <= ramp_part(range, e1, total) <= ramp_part(range, e2, total) <= range,
{
    lemma_mul_nonnegative(range, e1);
    lemma_div_pos_is_pos(range * e1, total);
    lemma_mul_inequality(e1, e2, range);
    lemma_mul_is_commutative(e1, range);
    lemma_mul_is_commutative(e2, range);
    lemma_div_is_ordered(range * e1, range * e2, total);
    lemma_mul_inequality(e2, total, range);
    lemma_mul_is_commutative(total, range);
    lemma_multiply_divide_le(range * e2, total, range);
}

/// Returns the amplification in effect at `block_time`.
pub fn compute_current_amp(config: &Config, block_time: u64) -> (r: Result<u64, ContractError>)
    ensures
        r == current_amp_spec(*config, block_time),
{
    if block_time < config.next_amp_time {
        if block_time < config.init_amp_time {
            return Err(ContractError::Overflow);
        }
        let elapsed: u128 = (block_time - config.init_amp_time) as u128;
        let total: u128 = (config.next_amp_time - config.init_amp_time) as u128;
        if config.next_amp > config.init_amp {
            let range: u128 = (config.next_amp - config.init_amp) as u128;
            proof {
                lemma_ramp_part(range as int, elapsed as int, elapsed as int, total as int);
                lemma_mul_inequality(elapsed as int, u64::MAX as int, range as int);
                lemma_mul_inequality(range as int, u64::MAX as int, u64::MAX as int);
                lemma_mul_is_commutative(elapsed as int, range as int);
            }
            let part: u128 = range * elapsed / total;
            Ok((config.init_amp as u128 + part) as u64)
        } else {
            let range: u128 = (config.init_amp - config.next_amp) as u128;
            proof {
                lemma_ramp_part(range as int, elapsed as int, elapsed as int, total as int);
                lemma_mul_inequality(elapsed as int, u64::MAX as int, range as int);
                lemma_mul_inequality(range as int, u64::MAX as int, u64::MAX as int);
                lemma_mul_is_commutative(elapsed as int, range as int);
            }
            let part: u128 = range * elapsed / total;
            Ok((config.init_amp as u128 - part) as u64)
        }
    } else {
        Ok(config.next_amp)
    }
}

/// What starting a ramp to `next_amp` (unscaled), to be reached at
/// `next_amp_time`, makes of the state at `block_time`.
///
/// The target has to be above zero and not above `MAX_AMP`; it may differ
/// from the amplification in effect by the factor `MAX_AMP_CHANGE` at most;
/// the previous ramp has to have started `MIN_AMP_CHANGING_TIME` ago or
/// earlier; and the new one has to last that long at least. The new ramp
/// starts at `block_time` from the amplification in effect then.
pub open spec fn start_changing_amp_spec(
    config: Config,
    block_time: u64,
    next_amp: u64,
    next_amp_time: u64,
) -> Result<Config, ContractError> {
    if next_amp == 0 || next_amp > MAX_AMP {
        Err(ContractError::IncorrectAmp)
    } else {
        match current_amp_spec(config, block_time) {
            Err(e) => Err(e),
            Ok(current) => {
                let scaled = next_amp * AMP_PRECISION;
                if scaled * MAX_AMP_CHANGE < current || scaled > current * MAX_AMP_CHANGE {
                    Err(ContractError::MaxAmpChangeAssertion)
                } else if block_time < config.init_amp_time + MIN_AMP_CHANGING_TIME
                    || next_amp_time < block_time + MIN_AMP_CHANGING_TIME {
                    Err(ContractError::MinAmpChangingTimeAssertion)
                } else {
                    Ok(
                        Config {
                            init_amp: current,
                            next_amp: scaled as u64,
                            init_amp_time: block_time,
                            next_amp_time,
                            ..config
                        },
                    )
                }
            },
        }
    }
}

/// Starts a ramp to `next_amp` (unscaled), to be reached at `next_amp_time`,
/// and returns the new state.
pub fn start_changing_amp(config: Config, block_time: u64, next_amp: u64, next_amp_time: u64) -> (r:
    Result<Config, ContractError>)
    ensures
        r == start_changing_amp_spec(config, block_time, next_amp, next_amp_time),
{
    if next_amp == 0 || next_amp > MAX_AMP {
        return Err(ContractError::IncorrectAmp);
    }
    let current = compute_current_amp(&config, block_time)?;
    let scaled: u64 = next_amp * AMP_PRECISION;
    if (scaled as u128) * (MAX_AMP_CHANGE as u128) < current as u128 || (scaled as u128) > (
    current as u128) * (MAX_AMP_CHANGE as u128) {
        return Err(ContractError::MaxAmpChangeAssertion);
    }
    if (block_time as u128) < config.init_amp_time as u128 + MIN_AMP_CHANGING_TIME as u128 || (
    next_amp_time as u128) < block_time as u128 + MIN_AMP_CHANGING_TIME as u128 {
        return Err(ContractError::MinAmpChangingTimeAssertion);
    }
    Ok(
        Config {
            init_amp: current,
            next_amp: scaled,
            init_amp_time: block_time,
            next_amp_time,
            ..config
        },
    )
}

/// What stopping the ramp makes of the state at `block_time`: the
/// amplification in effect then is kept from then on.
pub open spec fn stop_changing_amp_spec(config: Config, block_time: u64) -> Result<
    Config,
    ContractError,
> {
    match current_amp_spec(config, block_time) {
        Err(e) => Err(e),
        Ok(current) => Ok(
            Config {
                init_amp: current,
                next_amp: current,
                init_amp_time: block_time,
                next_amp_time: block_time,
                ..config
            },
        ),
    }
}

/// Stops the ramp at the amplification in effect at `block_time` and returns
/// the new state.
pub fn stop_changing_amp(config: Config, block_time: u64) -> (r: Result<Config, ContractError>)
    ensures
        r == stop_changing_amp_spec(config, block_time),
{
    let current = compute_current_amp(&config, block_time)?;
    Ok(
        Config {
            init_amp: current,
            next_amp: current,
            init_amp_time: block_time,
            next_amp_time: block_time,
            ..config
        },
    )
}

/// At the start of a ramp the amplification is `init_amp`, and from its end
/// on it is `next_amp`.
pub proof fn lemma_current_amp_at_ends(config: Config, block_time: u64)
    requires
        config.wf(),
    ensures
        block_time == config.init_amp_time ==> current_amp_spec(config, block_time) == Ok::<
            u64,
            ContractError,
        >(config.init_amp),
        block_time >= config.next_amp_time ==> current_amp_spec(config, block_time) == Ok::<
            u64,
            ContractError,
        >(config.next_amp),
{
    if block_time == config.init_amp_time && block_time < config.next_amp_time {
        let total = config.next_amp_time - config.init_amp_time;
        if config.next_amp > config.init_amp {
            lemma_ramp_part(config.next_amp - config.init_amp, 0, 0, total);
            lemma_mul_is_commutative(config.next_amp - config.init_amp, 0);
        } else {
            lemma_ramp_part(config.init_amp - config.next_amp, 0, 0, total);
            lemma_mul_is_commutative(config.init_amp - config.next_amp, 0);
        }
        vstd::arithmetic::div_mod::lemma_div_basics(total);
    }
}

/// From the start of the ramp on the amplification is defined, lies between
/// `init_amp` and `next_amp`, and moves in one direction only: at a later time
/// it is no further from `next_amp`.
pub proof fn lemma_current_amp_monotonic(config: Config, t1: u64, t2: u64)
    requires
        config.init_amp_time <= config.next_amp_time,
        config.init_amp_time <= t1 <= t2,
    ensures
        current_amp_spec(config, t1) is Ok,
        current_amp_spec(config, t2) is Ok,
        config.next_amp > config.init_amp ==> config.init_amp <= current_amp_spec(config, t1)->Ok_0
            <= current_amp_spec(config, t2)->Ok_0 <= config.next_amp,
        config.next_amp <= config.init_amp ==> config.init_amp >= current_amp_spec(
            config,
            t1,
        )->Ok_0 >= current_amp_spec(config, t2)->Ok_0 >= config.next_amp,
{
    let total = config.next_amp_time - config.init_amp_time;
    let range = if config.next_amp > config.init_amp {
        config.next_amp - config.init_amp
    } else {
        config.init_amp - config.next_amp
    };
    if t2 < config.next_amp_time {
        lemma_ramp_part(range, t1 - config.init_amp_time, t2 - config.init_amp_time, total);
    } else if t1 < config.next_amp_time {
        lemma_ramp_part(range, t1 - config.init_amp_time, t1 - config.init_amp_time, total);
    }
}

/// Starting and stopping a ramp keep the state well formed.
pub proof fn lemma_ramp_changes_keep_wf(
    config: Config,
    block_time: u64,
    next_amp: u64,
    next_amp_time: u64,
)
    requires
        config.wf(),
    ensures
        start_changing_amp_spec(config, block_time, next_amp, next_amp_time) matches Ok(c)
            ==> c.wf(),
        stop_changing_amp_spec(config, block_time) matches Ok(c) ==> c.wf(),
{
    if current_amp_spec(config, block_time) is Ok {
        if block_time >= config.init_amp_time {
            lemma_current_amp_monotonic(config, block_time, block_time);
        }
    }
}

} // verus!
