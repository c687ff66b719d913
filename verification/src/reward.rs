//! The reward index: rewards that arrive for the pool are shared out by a
//! number that only grows, the reward per share so far. What an account is
//! owed is the growth of that number since the account last settled, times
//! its shares.

use crate::decimal::{Decimal256, DECIMAL_FRACTIONAL};
use crate::error::ContractError;
use crate::math::lemma_mul_bound;
use crate::wide::{limit, U256};
use vstd::arithmetic::div_mod::{lemma_div_is_ordered, lemma_div_pos_is_pos};
use vstd::arithmetic::mul::lemma_mul_nonnegative;
use vstd::prelude::*;

verus! {

/// What has newly arrived: the balance less the balance before, or nothing
/// where the balance fell.
pub open spec fn latest_reward(reward_balance: u128, previous_reward_balance: u128) -> u128 {
    if reward_balance > previous_reward_balance {
        (reward_balance - previous_reward_balance) as u128
    } else {
        0u128
    }
}

/// The growth of the index, in atomic units, for `latest` units of reward on
/// `total_share` shares.
pub open spec fn index_growth(latest: u128, total_share: u128) -> int {
    latest * DECIMAL_FRACTIONAL / (total_share as int)
}

/// The index after a reward has arrived, in atomic units, and what has
/// arrived.
pub open spec fn accrue_spec(
    global_index: nat,
    reward_balance: u128,
    previous_reward_balance: u128,
    total_share: u128,
) -> Result<(nat, u128), ContractError> {
    let latest = latest_reward(reward_balance, previous_reward_balance);
    if total_share == 0 {
        Err(ContractError::DivideByZero)
    } else if global_index + index_growth(latest, total_share) >= limit() {
        Err(ContractError::Overflow)
    } else {
        Ok(((global_index + index_growth(latest, total_share)) as nat, latest))
    }
}

/// Adds to the index the reward that has arrived since the balance was
/// `previous_reward_balance`, and returns the new index and what has arrived.
/// Fails with `DivideByZero` where there are no shares and with `Overflow`
/// where the index has no room.
pub fn accrue(
    global_index: Decimal256,
    reward_balance: u128,
    previous_reward_balance: u128,
    total_share: u128,
) -> (r: Result<(Decimal256, u128), ContractError>)
    ensures
        match accrue_spec(global_index@, reward_balance, previous_reward_balance, total_share) {
            Ok((index, latest)) => r is Ok && r->Ok_0.0@ == index && r->Ok_0.1 == latest,
            Err(e) => r == Err::<(Decimal256, u128), ContractError>(e),
        },
        r is Ok ==> r->Ok_0.0@ >= global_index@,
{
    let latest = if reward_balance > previous_reward_balance {
        reward_balance - previous_reward_balance
    } else {
        0
    };
    if total_share == 0 {
        return Err(ContractError::DivideByZero);
    }
    proof {
        lemma_mul_bound(latest as int, DECIMAL_FRACTIONAL as int, u128::MAX as int, DECIMAL_FRACTIONAL as int);
        lemma_div_pos_is_pos(latest * DECIMAL_FRACTIONAL, total_share as int);
    }
    let growth = U256::from_u128(latest).try_mul(U256::from_u128(DECIMAL_FRACTIONAL))?.try_div(
        U256::from_u128(total_share),
    )?;
    let atomics = global_index.atomics.try_add(growth)?;
    Ok((Decimal256 { atomics }, latest))
}

/// The atomic units of an index that may be missing.
pub open spec fn units(index: Option<Decimal256>) -> Option<nat> {
    match index {
        Some(i) => Some(i@),
        None => None,
    }
}

/// The atomic units of the index of the pool, which is zero until it is first
/// written.
pub open spec fn units_or_zero(index: Option<Decimal256>) -> nat {
    match index {
        Some(i) => i@,
        None => 0,
    }
}

/// The index from which an account is owed: the one recorded for it; for an
/// account without one, zero where it holds shares, and the index itself
/// where it holds none.
pub open spec fn settle_base(global_index: nat, user_index: Option<nat>, user_share: u128) -> nat {
    match user_index {
        Some(index) => index,
        None => if user_share == 0 {
            global_index
        } else {
            0
        },
    }
}

/// What an account with `user_share` shares is owed at the index
/// `global_index`: the growth of the index since the account's own, times its
/// shares, rounded down.
pub open spec fn settle_spec(global_index: nat, user_index: Option<nat>, user_share: u128)
    -> Result<u128, ContractError> {
    let base = settle_base(global_index, user_index, user_share);
    if base > global_index {
        Err(ContractError::Overflow)
    } else if (global_index - base) * user_share / (DECIMAL_FRACTIONAL as int) > u128::MAX {
        Err(ContractError::Overflow)
    } else {
        Ok(((global_index - base) * user_share / (DECIMAL_FRACTIONAL as int)) as u128)
    }
}

/// Returns what an account is owed and the index recorded for it from now
/// on, which is `global_index`. Fails with `Overflow` where the account's
/// index is above `global_index` or what is owed does not fit.
pub fn settle(global_index: Decimal256, user_index: Option<Decimal256>, user_share: u128) -> (r:
    Result<(u128, Decimal256), ContractError>)
    ensures
        match settle_spec(global_index@, units(user_index), user_share) {
            Ok(owed) => r is Ok && r->Ok_0.0 == owed && r->Ok_0.1 == global_index,
            Err(e) => r == Err::<(u128, Decimal256), ContractError>(e),
        },
{
    let base = match user_index {
        Some(index) => index.atomics,
        None => if user_share == 0 {
            global_index.atomics
        } else {
            U256::from_u128(0)
        },
    };
    let growth = global_index.atomics.try_sub(base)?;
    let product = match growth.checked_mul(U256::from_u128(user_share)) {
        Some(p) => p,
        None => {
            proof {
                lemma_div_is_ordered(
                    limit() as int,
                    growth@ * user_share,
                    DECIMAL_FRACTIONAL as int,
                );
            }
            return Err(ContractError::Overflow);
        },
    };
    let owed = product.try_div(U256::from_u128(DECIMAL_FRACTIONAL))?.try_to_u128()?;
    Ok((owed, global_index))
}

/// The index after a reward has arrived, what has arrived, and what the
/// account is owed at the new index.
pub open spec fn calc_user_reward_spec(
    reward_balance: u128,
    previous_reward_balance: u128,
    user_share: u128,
    total_share: u128,
    global_index: nat,
    user_index: Option<nat>,
) -> Result<(nat, u128, u128), ContractError> {
    match accrue_spec(global_index, reward_balance, previous_reward_balance, total_share) {
        Err(e) => Err(e),
        Ok((index, latest)) => match settle_spec(index, user_index, user_share) {
            Err(e) => Err(e),
            Ok(owed) => Ok((index, latest, owed)),
        },
    }
}

/// Adds to the index the reward that has arrived and settles one account at
/// the new index. Returns the new index, which is also the account's from now
/// on, what has arrived, and what the account is owed.
pub fn calc_user_reward(
    reward_balance: u128,
    previous_reward_balance: u128,
    user_share: u128,
    total_share: u128,
    bluna_reward_global_index: Decimal256,
    bluna_reward_user_index: Option<Decimal256>,
) -> (r: Result<(Decimal256, u128, u128), ContractError>)
    ensures
        match calc_user_reward_spec(
            reward_balance,
            previous_reward_balance,
            user_share,
            total_share,
            bluna_reward_global_index@,
            units(bluna_reward_user_index),
        ) {
            Ok((index, latest, owed)) => r is Ok && r->Ok_0.0@ == index && r->Ok_0.1 == latest
                && r->Ok_0.2 == owed,
            Err(e) => r == Err::<(Decimal256, u128, u128), ContractError>(e),
        },
{
    let (index, latest) = accrue(
        bluna_reward_global_index,
        reward_balance,
        previous_reward_balance,
        total_share,
    )?;
    let (owed, _) = settle(index, bluna_reward_user_index, user_share)?;
    Ok((index, latest, owed))
}

/// The index after a run of arrivals, each given by the balance, the balance
/// before and the number of shares at the time.
pub open spec fn index_after(global_index: nat, arrivals: Seq<(u128, u128, u128)>) -> Result<
    nat,
    ContractError,
>
    decreases arrivals.len(),
{
    if arrivals.len() == 0 {
        Ok(global_index)
    } else {
        match accrue_spec(global_index, arrivals[0].0, arrivals[0].1, arrivals[0].2) {
            Err(e) => Err(e),
            Ok((index, _)) => index_after(index, arrivals.subrange(1, arrivals.len() as int)),
        }
    }
}

/// The index never falls, whatever arrives and however often.
pub proof fn lemma_index_never_falls(global_index: nat, arrivals: Seq<(u128, u128, u128)>)
    ensures
        index_after(global_index, arrivals) matches Ok(index) ==> index >= global_index,
    decreases arrivals.len(),
{
    if arrivals.len() > 0 {
        let first = arrivals[0];
        match accrue_spec(global_index, first.0, first.1, first.2) {
            Err(_) => {},
            Ok((index, latest)) => {
                lemma_mul_nonnegative(latest as int, DECIMAL_FRACTIONAL as int);
                lemma_div_pos_is_pos(latest * DECIMAL_FRACTIONAL, first.2 as int);
                lemma_index_never_falls(index, arrivals.subrange(1, arrivals.len() as int));
            },
        }
    }
}

/// An account that has just settled is owed nothing: settling leaves it at the
/// index, and from the index to itself nothing has grown.
pub proof fn lemma_settle_again_owes_nothing(global_index: nat, user_share: u128)
    ensures
        settle_spec(global_index, Some(global_index), user_share) == Ok::<u128, ContractError>(
            0u128,
        ),
{
    assert(0 * user_share == 0) by (nonlinear_arith);
}

/// An account without an index and without shares is owed nothing, whatever
/// the index.
pub proof fn lemma_settle_newcomer_without_shares(global_index: nat)
    ensures
        settle_spec(global_index, None, 0) == Ok::<u128, ContractError>(0u128),
{
    assert(0 * 0u128 == 0) by (nonlinear_arith);
}

/// Takes in the reward that has arrived and settles the account `user`.
/// Only the pool itself may ask for this: `sender` has to be
/// `contract_addr`, else the call fails with `Unauthorized`. Returns the new
/// index, which is also the account's from now on, what has arrived, and
/// what the account is owed.
pub fn handle_reward(
    sender: &String,
    contract_addr: &String,
    reward_balance: u128,
    previous_reward_balance: u128,
    user_share: u128,
    total_share: u128,
    bluna_reward_global_index: Option<Decimal256>,
    bluna_reward_user_index: Option<Decimal256>,
) -> (r: Result<(Decimal256, u128, u128), ContractError>)
    ensures
        sender@ != contract_addr@ ==> r == Err::<(Decimal256, u128, u128), ContractError>(
            ContractError::Unauthorized,
        ),
        sender@ == contract_addr@ ==> match calc_user_reward_spec(
            reward_balance,
            previous_reward_balance,
            user_share,
            total_share,
            units_or_zero(bluna_reward_global_index),
            units(bluna_reward_user_index),
        ) {
            Ok((index, latest, owed)) => r is Ok && r->Ok_0.0@ == index && r->Ok_0.1 == latest
                && r->Ok_0.2 == owed,
            Err(e) => r == Err::<(Decimal256, u128, u128), ContractError>(e),
        },
{
    if !(*sender == *contract_addr) {
        return Err(ContractError::Unauthorized);
    }
    let global_index = match bluna_reward_global_index {
        Some(i) => i,
        None => Decimal256::zero(),
    };
    calc_user_reward(
        reward_balance,
        previous_reward_balance,
        user_share,
        total_share,
        global_index,
        bluna_reward_user_index,
    )
}

/// Returns what an account would be owed if it settled now. Nothing is
/// changed.
pub fn query_pending_reward(
    global_index: Option<Decimal256>,
    user_index: Option<Decimal256>,
    user_share: u128,
) -> (r: Result<u128, ContractError>)
    ensures
        r == settle_spec(units_or_zero(global_index), units(user_index), user_share),
{
    let global_index = match global_index {
        Some(i) => i,
        None => Decimal256::zero(),
    };
    let (owed, _) = settle(global_index, user_index, user_share)?;
    Ok(owed)
}

/// Checks that an account that claims its reward has shares staked: one
/// without any is refused with `NothingStaked`.
pub fn claim_reward(user_share: u128) -> (r: Result<(), ContractError>)
    ensures
        r == if user_share == 0 {
            Err::<(), ContractError>(ContractError::NothingStaked)
        } else {
            Ok::<(), ContractError>(())
        },
{
    if user_share == 0 {
        Err(ContractError::NothingStaked)
    } else {
        Ok(())
    }
}

/// Checks that a claim made for another account comes from the staking
/// contract: any other sender is refused with `OnlyGenerator`.
pub fn claim_reward_by_generator(sender: &String, generator: &String) -> (r: Result<
    (),
    ContractError,
>)
    ensures
        r == if sender@ == generator@ {
            Ok::<(), ContractError>(())
        } else {
            Err::<(), ContractError>(ContractError::OnlyGenerator)
        },
{
    if *sender == *generator {
        Ok(())
    } else {
        Err(ContractError::OnlyGenerator)
    }
}

} // verus!
