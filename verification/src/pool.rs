//! The operations of the pool. Each takes the state and what the caller has
//! learnt from outside (balances, precisions, fees, the time) and returns what
//! is to be paid and the state afterwards; none of them sends anything.

use crate::amp::{compute_current_amp, current_amp_spec};
use crate::asset::{Asset, AssetInfo};
use crate::decimal::Decimal;
use crate::error::ContractError;
use crate::liquidity::{
    compute_share,
    compute_share_spec,
    get_share_in_assets,
    get_share_in_assets_spec,
    lemma_round_trip_gives_no_more,
};
use crate::math::AMP_PRECISION;
use crate::oracle::{accumulate_prices, accumulate_prices_spec, update_oracle, update_oracle_spec};
use crate::pricing::{
    assert_max_spread,
    assert_max_spread_spec,
    calculate_maker_fee,
    calculate_maker_fee_spec,
    compute_offer_amount,
    compute_offer_amount_spec,
    compute_swap,
    compute_swap_spec,
};
use crate::state::Config;
use vstd::prelude::*;

verus! {

/// What a swap returns, loses to spread and pays as commission.
#[derive(Clone, Copy, Debug, PartialEq, Eq, Structural)]
pub struct SimulationResponse {
    pub return_amount: u128,
    pub spread_amount: u128,
    pub commission_amount: u128,
}

/// What a swap has to be offered, loses to spread and pays as commission.
#[derive(Clone, Copy, Debug, PartialEq, Eq, Structural)]
pub struct ReverseSimulationResponse {
    pub offer_amount: u128,
    pub spread_amount: u128,
    pub commission_amount: u128,
}

/// What a swap has done: the amounts, which of the two balances was asked
/// from, and the state afterwards.
#[derive(Clone, Copy, Debug, PartialEq, Eq, Structural)]
pub struct SwapResult {
    /// Position of the asset that is paid out, 0 or 1.
    pub ask_index: usize,
    /// What is paid out, after the commission.
    pub return_amount: u128,
    /// What the output before the commission falls short of the offer.
    pub spread_amount: u128,
    /// What stays in the pool as commission.
    pub commission_amount: u128,
    /// The part of the commission that goes to the maker.
    pub maker_fee_amount: u128,
    /// The state after the swap.
    pub config: Config,
}

/// The position of an asset among two, the first where both are the same.
pub open spec fn position_spec(pools: [Asset; 2], info: AssetInfo) -> Option<usize> {
    if info.equal_spec(&pools[0].info) {
        Some(0usize)
    } else if info.equal_spec(&pools[1].info) {
        Some(1usize)
    } else {
        None
    }
}

/// Returns the position of an asset among two, the first where both are the
/// same.
pub fn position(pools: &[Asset; 2], info: &AssetInfo) -> (r: Option<usize>)
    ensures
        r == position_spec(*pools, *info),
{
    if info.equal(&pools[0].info) {
        Some(0)
    } else if info.equal(&pools[1].info) {
        Some(1)
    } else {
        None
    }
}

/// The balance of a pooled asset before an offer came in: less the offer
/// where it is the asset offered.
pub open spec fn balance_before_spec(pool: Asset, offer: Asset) -> Result<u128, ContractError> {
    if pool.info.equal_spec(&offer.info) {
        if pool.amount < offer.amount {
            Err(ContractError::Overflow)
        } else {
            Ok((pool.amount - offer.amount) as u128)
        }
    } else {
        Ok(pool.amount)
    }
}

/// Returns the balance of a pooled asset before an offer came in.
fn balance_before(pool: &Asset, offer: &Asset) -> (r: Result<u128, ContractError>)
    ensures
        r == balance_before_spec(*pool, *offer),
{
    if pool.info.equal(&offer.info) {
        match pool.amount.checked_sub(offer.amount) {
            Some(v) => Ok(v),
            None => Err(ContractError::Overflow),
        }
    } else {
        Ok(pool.amount)
    }
}

/// The part of a commission that goes to the maker, as a number: nothing
/// where no maker is set.
pub open spec fn maker_fee_amount_spec(
    ask_info: AssetInfo,
    commission_amount: u128,
    maker_fee_rate: Option<Decimal>,
) -> Result<u128, ContractError> {
    match maker_fee_rate {
        None => Ok(0u128),
        Some(rate) => match calculate_maker_fee_spec(ask_info, commission_amount, rate) {
            Err(e) => Err(e),
            Ok(None) => Ok(0u128),
            Ok(Some(fee)) => Ok(fee.amount),
        },
    }
}

/// What a swap of `offer_asset` does at `block_time`.
///
/// `pools` are the two balances with the offer already in; the offer is
/// taken out again before anything is computed. An asset that is not pooled
/// fails with `AssetMismatch`. The amounts are those of `compute_swap_spec`
/// at the amplification in effect; what is returned plus the commission is
/// held to the tolerated spread; the maker's part is taken where a maker
/// rate is given; and the oracle is updated with the balances before the
/// swap.
pub open spec fn swap_spec(
    config: Config,
    block_time: u64,
    pools: [Asset; 2],
    precisions: [u8; 2],
    offer_asset: Asset,
    belief_price: Option<Decimal>,
    max_spread: Option<Decimal>,
    total_fee_rate: Decimal,
    maker_fee_rate: Option<Decimal>,
) -> Result<SwapResult, ContractError> {
    match balance_before_spec(pools[0], offer_asset) {
        Err(e) => Err(e),
        Ok(amount_0) => match balance_before_spec(pools[1], offer_asset) {
            Err(e) => Err(e),
            Ok(amount_1) => match position_spec(pools, offer_asset.info) {
                None => Err(ContractError::AssetMismatch),
                Some(offer_index) => {
                    let ask_index = (1 - offer_index) as usize;
                    let amounts = [amount_0, amount_1];
                    match current_amp_spec(config, block_time) {
                        Err(e) => Err(e),
                        Ok(amp) => match compute_swap_spec(
                            amounts[offer_index as int],
                            precisions[offer_index as int],
                            amounts[ask_index as int],
                            precisions[ask_index as int],
                            offer_asset.amount,
                            total_fee_rate,
                            amp,
                        ) {
                            Err(e) => Err(e),
                            Ok((return_amount, spread_amount, commission_amount)) => if return_amount
                                + commission_amount > u128::MAX {
                                Err(ContractError::Overflow)
                            } else {
                                match assert_max_spread_spec(
                                    belief_price,
                                    max_spread,
                                    offer_asset.amount,
                                    (return_amount + commission_amount) as u128,
                                    spread_amount,
                                ) {
                                    Err(e) => Err(e),
                                    Ok(()) => match maker_fee_amount_spec(
                                        pools[ask_index as int].info,
                                        commission_amount,
                                        maker_fee_rate,
                                    ) {
                                        Err(e) => Err(e),
                                        Ok(maker_fee_amount) => match update_oracle_spec(
                                            config,
                                            block_time,
                                            amount_0,
                                            precisions[0],
                                            amount_1,
                                            precisions[1],
                                        ) {
                                            Err(e) => Err(e),
                                            Ok(config) => Ok(
                                                SwapResult {
                                                    ask_index,
                                                    return_amount,
                                                    spread_amount,
                                                    commission_amount,
                                                    maker_fee_amount,
                                                    config,
                                                },
                                            ),
                                        },
                                    },
                                }
                            },
                        },
                    }
                },
            },
        },
    }
}

/// Swaps `offer_asset` at `block_time` and returns the amounts and the state
/// afterwards.
pub fn swap(
    config: Config,
    block_time: u64,
    pools: &[Asset; 2],
    precisions: [u8; 2],
    offer_asset: &Asset,
    belief_price: Option<Decimal>,
    max_spread: Option<Decimal>,
    total_fee_rate: Decimal,
    maker_fee_rate: Option<Decimal>,
) -> (r: Result<SwapResult, ContractError>)
    ensures
        r == swap_spec(
            config,
            block_time,
            *pools,
            precisions,
            *offer_asset,
            belief_price,
            max_spread,
            total_fee_rate,
            maker_fee_rate,
        ),
{
    let amount_0 = balance_before(&pools[0], offer_asset)?;
    let amount_1 = balance_before(&pools[1], offer_asset)?;
    let offer_index = match position(pools, &offer_asset.info) {
        Some(i) => i,
        None => { return Err(ContractError::AssetMismatch); },
    };
    let ask_index = 1 - offer_index;
    let amounts = [amount_0, amount_1];
    let amp = compute_current_amp(&config, block_time)?;
    let (return_amount, spread_amount, commission_amount) = compute_swap(
        amounts[offer_index],
        precisions[offer_index],
        amounts[ask_index],
        precisions[ask_index],
        offer_asset.amount,
        total_fee_rate,
        amp,
    )?;
    let before_commission = match return_amount.checked_add(commission_amount) {
        Some(v) => v,
        None => { return Err(ContractError::Overflow); },
    };
    assert_max_spread(
        belief_price,
        max_spread,
        offer_asset.amount,
        before_commission,
        spread_amount,
    )?;
    let maker_fee_amount = match maker_fee_rate {
        None => 0,
        Some(rate) => match calculate_maker_fee(
            pools[ask_index].info.duplicate(),
            commission_amount,
            rate,
        )? {
            None => 0,
            Some(fee) => fee.amount,
        },
    };
    let config = update_oracle(
        config,
        block_time,
        amount_0,
        precisions[0],
        amount_1,
        precisions[1],
    )?;
    Ok(
        SwapResult {
            ask_index,
            return_amount,
            spread_amount,
            commission_amount,
            maker_fee_amount,
            config,
        },
    )
}

/// What a swap of `offer_asset` would give at `block_time`, at the balances
/// `pools`.
pub open spec fn query_simulation_spec(
    config: Config,
    block_time: u64,
    pools: [Asset; 2],
    precisions: [u8; 2],
    offer_asset: Asset,
    total_fee_rate: Decimal,
) -> Result<SimulationResponse, ContractError> {
    match position_spec(pools, offer_asset.info) {
        None => Err(ContractError::AssetMismatch),
        Some(offer_index) => {
            let ask_index = (1 - offer_index) as usize;
            match current_amp_spec(config, block_time) {
                Err(e) => Err(e),
                Ok(amp) => match compute_swap_spec(
                    pools[offer_index as int].amount,
                    precisions[offer_index as int],
                    pools[ask_index as int].amount,
                    precisions[ask_index as int],
                    offer_asset.amount,
                    total_fee_rate,
                    amp,
                ) {
                    Err(e) => Err(e),
                    Ok((return_amount, spread_amount, commission_amount)) => Ok(
                        SimulationResponse { return_amount, spread_amount, commission_amount },
                    ),
                },
            }
        },
    }
}

/// Returns what a swap of `offer_asset` would give at `block_time`. The state
/// is not changed.
pub fn query_simulation(
    config: &Config,
    block_time: u64,
    pools: &[Asset; 2],
    precisions: [u8; 2],
    offer_asset: &Asset,
    total_fee_rate: Decimal,
) -> (r: Result<SimulationResponse, ContractError>)
    ensures
        r == query_simulation_spec(
            *config,
            block_time,
            *pools,
            precisions,
            *offer_asset,
            total_fee_rate,
        ),
{
    let offer_index = match position(pools, &offer_asset.info) {
        Some(i) => i,
        None => { return Err(ContractError::AssetMismatch); },
    };
    let ask_index = 1 - offer_index;
    let amp = compute_current_amp(config, block_time)?;
    let (return_amount, spread_amount, commission_amount) = compute_swap(
        pools[offer_index].amount,
        precisions[offer_index],
        pools[ask_index].amount,
        precisions[ask_index],
        offer_asset.amount,
        total_fee_rate,
        amp,
    )?;
    Ok(SimulationResponse { return_amount, spread_amount, commission_amount })
}

/// What would have to be offered at `block_time` for a swap to return
/// `ask_asset`, at the balances `pools`.
pub open spec fn query_reverse_simulation_spec(
    config: Config,
    block_time: u64,
    pools: [Asset; 2],
    precisions: [u8; 2],
    ask_asset: Asset,
    total_fee_rate: Decimal,
) -> Result<ReverseSimulationResponse, ContractError> {
    match position_spec(pools, ask_asset.info) {
        None => Err(ContractError::AssetMismatch),
        Some(ask_index) => {
            let offer_index = (1 - ask_index) as usize;
            match current_amp_spec(config, block_time) {
                Err(e) => Err(e),
                Ok(amp) => match compute_offer_amount_spec(
                    pools[offer_index as int].amount,
                    precisions[offer_index as int],
                    pools[ask_index as int].amount,
                    precisions[ask_index as int],
                    ask_asset.amount,
                    total_fee_rate,
                    amp,
                ) {
                    Err(e) => Err(e),
                    Ok((offer_amount, spread_amount, commission_amount)) => Ok(
                        ReverseSimulationResponse { offer_amount, spread_amount, commission_amount },
                    ),
                },
            }
        },
    }
}

/// Returns what would have to be offered at `block_time` for a swap to return
/// `ask_asset`. The state is not changed.
pub fn query_reverse_simulation(
    config: &Config,
    block_time: u64,
    pools: &[Asset; 2],
    precisions: [u8; 2],
    ask_asset: &Asset,
    total_fee_rate: Decimal,
) -> (r: Result<ReverseSimulationResponse, ContractError>)
    ensures
        r == query_reverse_simulation_spec(
            *config,
            block_time,
            *pools,
            precisions,
            *ask_asset,
            total_fee_rate,
        ),
{
    let ask_index = match position(pools, &ask_asset.info) {
        Some(i) => i,
        None => { return Err(ContractError::AssetMismatch); },
    };
    let offer_index = 1 - ask_index;
    let amp = compute_current_amp(config, block_time)?;
    let (offer_amount, spread_amount, commission_amount) = compute_offer_amount(
        pools[offer_index].amount,
        precisions[offer_index],
        pools[ask_index].amount,
        precisions[ask_index],
        ask_asset.amount,
        total_fee_rate,
        amp,
    )?;
    Ok(ReverseSimulationResponse { offer_amount, spread_amount, commission_amount })
}

/// What a deposit has done: the shares to mint, what was brought of each
/// pooled asset, and the state afterwards.
#[derive(Clone, Copy, Debug, PartialEq, Eq, Structural)]
pub struct ProvideLiquidityResult {
    /// Shares to mint.
    pub share: u128,
    /// What was brought of the first pooled asset.
    pub deposit_0: u128,
    /// What was brought of the second pooled asset.
    pub deposit_1: u128,
    /// The state after the deposit.
    pub config: Config,
}

/// What is brought of a pooled asset: the amount of the first of the two
/// assets brought that is this asset.
pub open spec fn deposit_of_spec(assets: [Asset; 2], info: AssetInfo) -> Option<u128> {
    match position_spec(assets, info) {
        Some(i) => Some(assets[i as int].amount),
        None => None,
    }
}

/// The balance of a pooled asset before a deposit: a native coin is in the
/// balance as soon as it is sent, so the deposit is taken out again; a token
/// is only pulled in later.
pub open spec fn balance_without_deposit_spec(pool: Asset, deposit: u128) -> Result<
    u128,
    ContractError,
> {
    if pool.info is NativeToken {
        if pool.amount < deposit {
            Err(ContractError::Overflow)
        } else {
            Ok((pool.amount - deposit) as u128)
        }
    } else {
        Ok(pool.amount)
    }
}

/// Returns the balance of a pooled asset before a deposit.
fn balance_without_deposit(pool: &Asset, deposit: u128) -> (r: Result<u128, ContractError>)
    ensures
        r == balance_without_deposit_spec(*pool, deposit),
{
    if pool.info.is_native_token() {
        match pool.amount.checked_sub(deposit) {
            Some(v) => Ok(v),
            None => Err(ContractError::Overflow),
        }
    } else {
        Ok(pool.amount)
    }
}

/// The amplification that a deposit is priced at: the one in effect, which
/// the first deposit into a pool does not need.
pub open spec fn deposit_amp_spec(config: Config, block_time: u64, total_share: u128) -> Result<
    u64,
    ContractError,
> {
    if total_share == 0 {
        Ok(0u64)
    } else {
        current_amp_spec(config, block_time)
    }
}

/// What a deposit is priced at: the shares it mints, what it brings of each
/// pooled asset, and the two balances before it.
#[derive(Clone, Copy, Debug, PartialEq, Eq, Structural)]
pub struct DepositQuote {
    /// Shares to mint, above zero.
    pub share: u128,
    /// What is brought of the first pooled asset.
    pub deposit_0: u128,
    /// What is brought of the second pooled asset.
    pub deposit_1: u128,
    /// Balance of the first pooled asset before the deposit.
    pub balance_0: u128,
    /// Balance of the second pooled asset before the deposit.
    pub balance_1: u128,
}

/// What a deposit of `assets` is priced at, at `block_time`.
///
/// Both pooled assets have to be among `assets`, else the deposit fails with
/// `AssetMismatch`, and neither amount may be zero, else it fails with
/// `InvalidZeroAmount`. The shares are those of `compute_share_spec` at the
/// balances before the deposit; a deposit that mints none fails with
/// `LiquidityAmountTooSmall`.
pub open spec fn quote_deposit_spec(
    config: Config,
    block_time: u64,
    assets: [Asset; 2],
    pools: [Asset; 2],
    precisions: [u8; 2],
    total_share: u128,
    share_precision: u8,
) -> Result<DepositQuote, ContractError> {
    match (deposit_of_spec(assets, pools[0].info), deposit_of_spec(assets, pools[1].info)) {
        (Some(deposit_0), Some(deposit_1)) => if deposit_0 == 0 || deposit_1 == 0 {
            Err(ContractError::InvalidZeroAmount)
        } else {
            match balance_without_deposit_spec(pools[0], deposit_0) {
                Err(e) => Err(e),
                Ok(balance_0) => match balance_without_deposit_spec(pools[1], deposit_1) {
                    Err(e) => Err(e),
                    Ok(balance_1) => match deposit_amp_spec(config, block_time, total_share) {
                        Err(e) => Err(e),
                        Ok(amp) => match compute_share_spec(
                            balance_0,
                            precisions[0],
                            balance_1,
                            precisions[1],
                            deposit_0,
                            deposit_1,
                            total_share,
                            share_precision,
                            amp,
                        ) {
                            Err(e) => Err(e),
                            Ok(share) => if share == 0 {
                                Err(ContractError::LiquidityAmountTooSmall)
                            } else {
                                Ok(
                                    DepositQuote {
                                        share,
                                        deposit_0,
                                        deposit_1,
                                        balance_0,
                                        balance_1,
                                    },
                                )
                            },
                        },
                    },
                },
            }
        },
        _ => Err(ContractError::AssetMismatch),
    }
}

/// Prices a deposit of `assets` at `block_time`. Nothing is changed.
///
/// `pools` are the two balances as they stand, native coins of the deposit
/// included.
pub fn quote_deposit(
    config: &Config,
    block_time: u64,
    assets: &[Asset; 2],
    pools: &[Asset; 2],
    precisions: [u8; 2],
    total_share: u128,
    share_precision: u8,
) -> (r: Result<DepositQuote, ContractError>)
    ensures
        r == quote_deposit_spec(
            *config,
            block_time,
            *assets,
            *pools,
            precisions,
            total_share,
            share_precision,
        ),
{
    let deposit_0 = match position(assets, &pools[0].info) {
        Some(i) => assets[i].amount,
        None => { return Err(ContractError::AssetMismatch); },
    };
    let deposit_1 = match position(assets, &pools[1].info) {
        Some(i) => assets[i].amount,
        None => { return Err(ContractError::AssetMismatch); },
    };
    if deposit_0 == 0 || deposit_1 == 0 {
        return Err(ContractError::InvalidZeroAmount);
    }
    let balance_0 = balance_without_deposit(&pools[0], deposit_0)?;
    let balance_1 = balance_without_deposit(&pools[1], deposit_1)?;
    let amp = if total_share == 0 {
        0
    } else {
        compute_current_amp(config, block_time)?
    };
    let share = compute_share(
        balance_0,
        precisions[0],
        balance_1,
        precisions[1],
        deposit_0,
        deposit_1,
        total_share,
        share_precision,
        amp,
    )?;
    if share == 0 {
        return Err(ContractError::LiquidityAmountTooSmall);
    }
    Ok(DepositQuote { share, deposit_0, deposit_1, balance_0, balance_1 })
}

/// What a deposit of `assets` does at `block_time`.
///
/// The deposit is priced as `quote_deposit_spec` says. Shares that are to be
/// staked need a known staking contract, else the deposit fails with
/// `AutoStakeError`. The oracle is updated with the balances before the
/// deposit.
pub open spec fn provide_liquidity_spec(
    config: Config,
    block_time: u64,
    assets: [Asset; 2],
    pools: [Asset; 2],
    precisions: [u8; 2],
    total_share: u128,
    share_precision: u8,
    auto_stake: bool,
    generator_known: bool,
) -> Result<ProvideLiquidityResult, ContractError> {
    match quote_deposit_spec(
        config,
        block_time,
        assets,
        pools,
        precisions,
        total_share,
        share_precision,
    ) {
        Err(e) => Err(e),
        Ok(quote) => if auto_stake && !generator_known {
            Err(ContractError::AutoStakeError)
        } else {
            match update_oracle_spec(
                config,
                block_time,
                quote.balance_0,
                precisions[0],
                quote.balance_1,
                precisions[1],
            ) {
                Err(e) => Err(e),
                Ok(config) => Ok(
                    ProvideLiquidityResult {
                        share: quote.share,
                        deposit_0: quote.deposit_0,
                        deposit_1: quote.deposit_1,
                        config,
                    },
                ),
            }
        },
    }
}

/// Takes a deposit of `assets` at `block_time` and returns the shares to
/// mint, what was brought of each pooled asset, and the state afterwards.
///
/// `pools` are the two balances as they stand, native coins of the deposit
/// included. `auto_stake` says that the shares are to be staked at once, and
/// `generator_known` that there is a staking contract to stake them with;
/// the latter is read only where the former holds and the deposit has a
/// price.
pub fn provide_liquidity(
    config: Config,
    block_time: u64,
    assets: &[Asset; 2],
    pools: &[Asset; 2],
    precisions: [u8; 2],
    total_share: u128,
    share_precision: u8,
    auto_stake: bool,
    generator_known: bool,
) -> (r: Result<ProvideLiquidityResult, ContractError>)
    ensures
        r == provide_liquidity_spec(
            config,
            block_time,
            *assets,
            *pools,
            precisions,
            total_share,
            share_precision,
            auto_stake,
            generator_known,
        ),
{
    let quote = quote_deposit(
        &config,
        block_time,
        assets,
        pools,
        precisions,
        total_share,
        share_precision,
    )?;
    if auto_stake && !generator_known {
        return Err(ContractError::AutoStakeError);
    }
    let config = update_oracle(
        config,
        block_time,
        quote.balance_0,
        precisions[0],
        quote.balance_1,
        precisions[1],
    )?;
    Ok(
        ProvideLiquidityResult {
            share: quote.share,
            deposit_0: quote.deposit_0,
            deposit_1: quote.deposit_1,
            config,
        },
    )
}

/// What a withdrawal of `amount` shares does at `block_time`: only the share
/// token itself may ask for it; each balance pays out the part that the
/// shares are of all shares; and the oracle is updated with the balances
/// before the withdrawal.
pub open spec fn withdraw_liquidity_spec(
    config: Config,
    block_time: u64,
    sender: String,
    liquidity_token: String,
    pools: [Asset; 2],
    precisions: [u8; 2],
    amount: u128,
    total_share: u128,
) -> Result<([Asset; 2], Config), ContractError> {
    if sender@ != liquidity_token@ {
        Err(ContractError::Unauthorized)
    } else {
        match get_share_in_assets_spec(pools, amount, total_share) {
            Err(e) => Err(e),
            Ok(refund_assets) => match update_oracle_spec(
                config,
                block_time,
                pools[0].amount,
                precisions[0],
                pools[1].amount,
                precisions[1],
            ) {
                Err(e) => Err(e),
                Ok(config) => Ok((refund_assets, config)),
            },
        }
    }
}

/// Withdraws `amount` shares at `block_time` and returns what is paid out of
/// each balance and the state afterwards.
pub fn withdraw_liquidity(
    config: Config,
    block_time: u64,
    sender: &String,
    liquidity_token: &String,
    pools: &[Asset; 2],
    precisions: [u8; 2],
    amount: u128,
    total_share: u128,
) -> (r: Result<([Asset; 2], Config), ContractError>)
    ensures
        r == withdraw_liquidity_spec(
            config,
            block_time,
            *sender,
            *liquidity_token,
            *pools,
            precisions,
            amount,
            total_share,
        ),
{
    if !(*sender == *liquidity_token) {
        return Err(ContractError::Unauthorized);
    }
    let refund_assets = get_share_in_assets(pools, amount, total_share)?;
    let config = update_oracle(
        config,
        block_time,
        pools[0].amount,
        precisions[0],
        pools[1].amount,
        precisions[1],
    )?;
    Ok((refund_assets, config))
}

/// The accumulated prices as they would be after an update, and the number
/// of shares.
#[derive(Clone, Copy, Debug, PartialEq, Eq, Structural)]
pub struct CumulativePricesResponse {
    pub total_share: u128,
    pub price0_cumulative_last: u128,
    pub price1_cumulative_last: u128,
}

/// The accumulated prices as an update at `block_time` would leave them.
pub open spec fn query_cumulative_prices_spec(
    config: Config,
    block_time: u64,
    assets: [Asset; 2],
    precisions: [u8; 2],
    total_share: u128,
) -> Result<CumulativePricesResponse, ContractError> {
    match accumulate_prices_spec(
        config,
        block_time,
        assets[0].amount,
        precisions[0],
        assets[1].amount,
        precisions[1],
    ) {
        Err(e) => Err(e),
        Ok(None) => Ok(
            CumulativePricesResponse {
                total_share,
                price0_cumulative_last: config.price0_cumulative_last,
                price1_cumulative_last: config.price1_cumulative_last,
            },
        ),
        Ok(Some((price0, price1, _))) => Ok(
            CumulativePricesResponse {
                total_share,
                price0_cumulative_last: price0,
                price1_cumulative_last: price1,
            },
        ),
    }
}

/// Returns the accumulated prices as an update at `block_time` would leave
/// them. The state is not changed.
pub fn query_cumulative_prices(
    config: &Config,
    block_time: u64,
    assets: &[Asset; 2],
    precisions: [u8; 2],
    total_share: u128,
) -> (r: Result<CumulativePricesResponse, ContractError>)
    ensures
        r == query_cumulative_prices_spec(*config, block_time, *assets, precisions, total_share),
{
    let mut price0_cumulative_last = config.price0_cumulative_last;
    let mut price1_cumulative_last = config.price1_cumulative_last;
    match accumulate_prices(
        block_time,
        config,
        assets[0].amount,
        precisions[0],
        assets[1].amount,
        precisions[1],
    )? {
        Some((price0, price1, _)) => {
            price0_cumulative_last = price0;
            price1_cumulative_last = price1;
        },
        None => {},
    }
    Ok(CumulativePricesResponse { total_share, price0_cumulative_last, price1_cumulative_last })
}

/// The time of the oracle and the amplification in effect, unscaled.
#[derive(Clone, Copy, Debug, PartialEq, Eq, Structural)]
pub struct ConfigResponse {
    pub block_time_last: u64,
    pub amp: Decimal,
}

/// The time of the oracle and the amplification in effect at `block_time`,
/// as a fraction: the scaled value over `AMP_PRECISION`.
pub open spec fn query_config_spec(config: Config, block_time: u64) -> Result<
    ConfigResponse,
    ContractError,
> {
    match current_amp_spec(config, block_time) {
        Err(e) => Err(e),
        Ok(amp) => match Decimal::from_ratio_spec(amp as u128, AMP_PRECISION as u128) {
            Err(e) => Err(e),
            Ok(amp) => Ok(ConfigResponse { block_time_last: config.block_time_last, amp }),
        },
    }
}

/// Returns the time of the oracle and the amplification in effect at
/// `block_time`.
pub fn query_config(config: &Config, block_time: u64) -> (r: Result<ConfigResponse, ContractError>)
    ensures
        r == query_config_spec(*config, block_time),
{
    let amp = compute_current_amp(config, block_time)?;
    let amp = Decimal::from_ratio(amp as u128, AMP_PRECISION as u128)?;
    Ok(ConfigResponse { block_time_last: config.block_time_last, amp })
}

/// The two balances right after a deposit.
pub open spec fn pools_after_deposit(pools: [Asset; 2], quote: DepositQuote) -> [Asset; 2] {
    [
        Asset { info: pools[0].info, amount: (quote.balance_0 + quote.deposit_0) as u128 },
        Asset { info: pools[1].info, amount: (quote.balance_1 + quote.deposit_1) as u128 },
    ]
}

/// A deposit that is withdrawn at once, before anything else happens, pays
/// back of each asset no more than was brought, where the shares it minted
/// are no larger a part of the shares before than what was brought is of the
/// balance before: `balance * share <= deposit * total_share` for both
/// assets. The withdrawal does not fail and leaves the state as the deposit
/// left it. The first deposit into an empty pool meets the condition and
/// gets back exactly what it brought.
pub proof fn lemma_deposit_withdrawn_at_once(
    config: Config,
    block_time: u64,
    assets: [Asset; 2],
    pools: [Asset; 2],
    precisions: [u8; 2],
    total_share: u128,
    share_precision: u8,
    auto_stake: bool,
    generator_known: bool,
    liquidity_token: String,
)
    requires
        provide_liquidity_spec(
            config,
            block_time,
            assets,
            pools,
            precisions,
            total_share,
            share_precision,
            auto_stake,
            generator_known,
        ) is Ok,
        ({
            let quote = quote_deposit_spec(
                config,
                block_time,
                assets,
                pools,
                precisions,
                total_share,
                share_precision,
            )->Ok_0;
            &&& quote.balance_0 + quote.deposit_0 <= u128::MAX
            &&& quote.balance_1 + quote.deposit_1 <= u128::MAX
            &&& total_share + quote.share <= u128::MAX
            &&& quote.balance_0 * quote.share <= quote.deposit_0 * total_share
            &&& quote.balance_1 * quote.share <= quote.deposit_1 * total_share
        }),
    ensures
        ({
            let quote = quote_deposit_spec(
                config,
                block_time,
                assets,
                pools,
                precisions,
                total_share,
                share_precision,
            )->Ok_0;
            let done = provide_liquidity_spec(
                config,
                block_time,
                assets,
                pools,
                precisions,
                total_share,
                share_precision,
                auto_stake,
                generator_known,
            )->Ok_0;
            let back = withdraw_liquidity_spec(
                done.config,
                block_time,
                liquidity_token,
                liquidity_token,
                pools_after_deposit(pools, quote),
                precisions,
                done.share,
                (total_share + done.share) as u128,
            );
            &&& done.share == quote.share
            &&& back is Ok
            &&& back->Ok_0.1 == done.config
            &&& back->Ok_0.0[0].amount <= quote.deposit_0
            &&& back->Ok_0.0[1].amount <= quote.deposit_1
            &&& (total_share == 0 && quote.balance_0 == 0 ==> back->Ok_0.0[0].amount
                == quote.deposit_0)
            &&& (total_share == 0 && quote.balance_1 == 0 ==> back->Ok_0.0[1].amount
                == quote.deposit_1)
        }),
{
    let quote = quote_deposit_spec(
        config,
        block_time,
        assets,
        pools,
        precisions,
        total_share,
        share_precision,
    )->Ok_0;
    lemma_round_trip_gives_no_more(quote.balance_0, quote.deposit_0, total_share, quote.share);
    lemma_round_trip_gives_no_more(quote.balance_1, quote.deposit_1, total_share, quote.share);
}

} // verus!
