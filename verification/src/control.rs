//! Setting the pool up and changing it, and who may do what: the decisions
//! that come before and after the arithmetic.

use crate::amp::{start_changing_amp, start_changing_amp_spec, stop_changing_amp, stop_changing_amp_spec};
use crate::asset::{Asset, AssetInfo};
use crate::decimal::Decimal;
use crate::error::ContractError;
use crate::math::{AMP_PRECISION, MAX_AMP};
use crate::state::Config;
use vstd::prelude::*;

verus! {

/// Number under which the answer of the new share token comes back.
pub const INSTANTIATE_TOKEN_REPLY_ID: u64 = 1;

/// Number under which the answer of the new reward holder comes back.
pub const INSTANTIATE_BLUNA_REWARD_HOLDER_REPLY_ID: u64 = 2;

/// The state of a new pool of the two assets at `block_time`, with the
/// amplification `amp` (unscaled): no ramp is running and the oracle is
/// empty. The assets have to differ, the parameters have to be given, and
/// the amplification has to be above zero and not above `MAX_AMP`.
pub open spec fn instantiate_spec(asset_infos: [AssetInfo; 2], amp: Option<u64>, block_time: u64)
    -> Result<Config, ContractError> {
    if asset_infos[0].equal_spec(&asset_infos[1]) {
        Err(ContractError::DoublingAssets)
    } else {
        match amp {
            None => Err(ContractError::InitParamsNotFound),
            Some(amp) => if amp == 0 || amp > MAX_AMP {
                Err(ContractError::IncorrectAmp)
            } else {
                Ok(
                    Config {
                        block_time_last: 0,
                        price0_cumulative_last: 0,
                        price1_cumulative_last: 0,
                        init_amp: (amp * AMP_PRECISION) as u64,
                        init_amp_time: block_time,
                        next_amp: (amp * AMP_PRECISION) as u64,
                        next_amp_time: block_time,
                    },
                )
            },
        }
    }
}

/// Returns the state of a new pool, which is well formed.
pub fn instantiate(asset_infos: &[AssetInfo; 2], amp: Option<u64>, block_time: u64) -> (r: Result<
    Config,
    ContractError,
>)
    ensures
        r == instantiate_spec(*asset_infos, amp, block_time),
        r matches Ok(config) ==> config.wf(),
{
    if asset_infos[0].equal(&asset_infos[1]) {
        return Err(ContractError::DoublingAssets);
    }
    let amp = match amp {
        Some(a) => a,
        None => { return Err(ContractError::InitParamsNotFound); },
    };
    if amp == 0 || amp > MAX_AMP {
        return Err(ContractError::IncorrectAmp);
    }
    Ok(
        Config {
            block_time_last: 0,
            price0_cumulative_last: 0,
            price1_cumulative_last: 0,
            init_amp: amp * AMP_PRECISION,
            init_amp_time: block_time,
            next_amp: amp * AMP_PRECISION,
            next_amp_time: block_time,
        },
    )
}

/// What the answer of a contract that the pool has created leads to.
#[derive(Clone, Debug, PartialEq, Eq)]
pub enum ReplyAction {
    /// The share token is recorded.
    SetLiquidityToken { address: String },
    /// The holder of the rewards is recorded.
    SetRewardHolder { address: String },
}

/// What the answer numbered `id` leads to, where `address` is the contract
/// that was created and `liquidity_token` the share token recorded so far,
/// empty where none is. The share token is recorded once only; an answer
/// under another number is not accepted.
pub open spec fn reply_spec(liquidity_token: String, id: u64, address: String) -> Result<
    ReplyAction,
    ContractError,
> {
    if id == INSTANTIATE_TOKEN_REPLY_ID {
        if liquidity_token@.len() != 0 {
            Err(ContractError::Unauthorized)
        } else {
            Ok(ReplyAction::SetLiquidityToken { address })
        }
    } else if id == INSTANTIATE_BLUNA_REWARD_HOLDER_REPLY_ID {
        Ok(ReplyAction::SetRewardHolder { address })
    } else {
        Err(ContractError::Unauthorized)
    }
}

/// Returns what the answer numbered `id` leads to.
pub fn reply(liquidity_token: &String, id: u64, address: String) -> (r: Result<
    ReplyAction,
    ContractError,
>)
    ensures
        r == reply_spec(*liquidity_token, id, address),
{
    if id == INSTANTIATE_TOKEN_REPLY_ID {
        if !liquidity_token.as_str().is_empty() {
            return Err(ContractError::Unauthorized);
        }
        Ok(ReplyAction::SetLiquidityToken { address })
    } else if id == INSTANTIATE_BLUNA_REWARD_HOLDER_REPLY_ID {
        Ok(ReplyAction::SetRewardHolder { address })
    } else {
        Err(ContractError::Unauthorized)
    }
}

/// A change that the owner asks for.
#[derive(Clone, Debug, PartialEq, Eq)]
pub enum StablePoolUpdateParams {
    /// Start a ramp to `next_amp` (unscaled), to be reached at
    /// `next_amp_time`.
    StartChangingAmp { next_amp: u64, next_amp_time: u64 },
    /// Stop the ramp where it is.
    StopChangingAmp,
    /// Take rewards from another contract.
    BlunaRewarder { address: String },
}

/// The state after a change, and the new source of rewards where the change
/// names one.
#[derive(Clone, Debug, PartialEq, Eq)]
pub struct ConfigUpdate {
    pub config: Config,
    pub bluna_rewarder: Option<String>,
}

/// What a change asked for by `sender` at `block_time` does. Only `owner` may
/// ask; the ramp changes as `start_changing_amp_spec` and
/// `stop_changing_amp_spec` say; a new source of rewards leaves the state as
/// it is.
pub open spec fn update_config_spec(
    config: Config,
    block_time: u64,
    sender: String,
    owner: String,
    params: StablePoolUpdateParams,
) -> Result<ConfigUpdate, ContractError> {
    if sender@ != owner@ {
        Err(ContractError::Unauthorized)
    } else {
        match params {
            StablePoolUpdateParams::StartChangingAmp {
                next_amp,
                next_amp_time,
            } => match start_changing_amp_spec(config, block_time, next_amp, next_amp_time) {
                Err(e) => Err(e),
                Ok(config) => Ok(ConfigUpdate { config, bluna_rewarder: None }),
            },
            StablePoolUpdateParams::StopChangingAmp => match stop_changing_amp_spec(
                config,
                block_time,
            ) {
                Err(e) => Err(e),
                Ok(config) => Ok(ConfigUpdate { config, bluna_rewarder: None }),
            },
            StablePoolUpdateParams::BlunaRewarder { address } => Ok(
                ConfigUpdate { config, bluna_rewarder: Some(address) },
            ),
        }
    }
}

/// Makes a change asked for by `sender` at `block_time` and returns the state
/// afterwards.
pub fn update_config(
    config: Config,
    block_time: u64,
    sender: &String,
    owner: &String,
    params: StablePoolUpdateParams,
) -> (r: Result<ConfigUpdate, ContractError>)
    ensures
        r == update_config_spec(config, block_time, *sender, *owner, params),
{
    if !(*sender == *owner) {
        return Err(ContractError::Unauthorized);
    }
    match params {
        StablePoolUpdateParams::StartChangingAmp { next_amp, next_amp_time } => {
            let config = start_changing_amp(config, block_time, next_amp, next_amp_time)?;
            Ok(ConfigUpdate { config, bluna_rewarder: None })
        },
        StablePoolUpdateParams::StopChangingAmp => {
            let config = stop_changing_amp(config, block_time)?;
            Ok(ConfigUpdate { config, bluna_rewarder: None })
        },
        StablePoolUpdateParams::BlunaRewarder { address } => Ok(
            ConfigUpdate { config, bluna_rewarder: Some(address) },
        ),
    }
}

/// Checks that a request comes from the one account that may make it: any
/// other sender is refused with `Unauthorized`.
pub fn assert_sender(sender: &String, allowed: &String) -> (r: Result<(), ContractError>)
    ensures
        r == if sender@ == allowed@ {
            Ok::<(), ContractError>(())
        } else {
            Err::<(), ContractError>(ContractError::Unauthorized)
        },
{
    if *sender == *allowed {
        Ok(())
    } else {
        Err(ContractError::Unauthorized)
    }
}

/// Checks that an asset offered for a swap by sending it along is a native
/// coin: a token is swapped by handing it over through its own contract, and
/// is refused here with `Unauthorized`.
pub fn assert_native_offer(offer_asset: &Asset) -> (r: Result<(), ContractError>)
    ensures
        r == if offer_asset.info is NativeToken {
            Ok::<(), ContractError>(())
        } else {
            Err::<(), ContractError>(ContractError::Unauthorized)
        },
{
    if offer_asset.is_native_token() {
        Ok(())
    } else {
        Err(ContractError::Unauthorized)
    }
}

/// What a token asks of the pool when it hands tokens over.
#[derive(Clone, Debug, PartialEq, Eq)]
pub enum Cw20HookMsg {
    /// Swap the tokens for the other asset.
    Swap { belief_price: Option<Decimal>, max_spread: Option<Decimal>, to: Option<String> },
    /// Pay out what the tokens, which are shares, are worth.
    WithdrawLiquidity,
}

/// What the pool does with tokens handed to it.
#[derive(Clone, Debug, PartialEq, Eq)]
pub enum ReceiveAction {
    /// Swap `offer_asset` and pay `to`, or the sender where it is empty.
    Swap {
        offer_asset: Asset,
        belief_price: Option<Decimal>,
        max_spread: Option<Decimal>,
        to: Option<String>,
    },
    /// Withdraw `amount` shares.
    WithdrawLiquidity { amount: u128 },
}

/// Whether `contract` is the contract of one of the two pooled assets.
pub open spec fn is_pool_token_spec(asset_infos: [AssetInfo; 2], contract: String) -> bool {
    ||| (asset_infos[0] matches AssetInfo::Token { contract_addr } && contract_addr@ == contract@)
    ||| (asset_infos[1] matches AssetInfo::Token { contract_addr } && contract_addr@ == contract@)
}

/// Returns whether `contract` is the contract of one of the two pooled
/// assets.
pub fn is_pool_token(asset_infos: &[AssetInfo; 2], contract: &String) -> (r: bool)
    ensures
        r == is_pool_token_spec(*asset_infos, *contract),
{
    let first = match &asset_infos[0] {
        AssetInfo::Token { contract_addr } => *contract_addr == *contract,
        AssetInfo::NativeToken { .. } => false,
    };
    let second = match &asset_infos[1] {
        AssetInfo::Token { contract_addr } => *contract_addr == *contract,
        AssetInfo::NativeToken { .. } => false,
    };
    first || second
}

/// What the pool does with `amount` tokens that the contract `sender` hands
/// to it with the request `msg`. Only a pooled token can be swapped; whether
/// shares may be withdrawn is decided at the withdrawal.
pub open spec fn receive_cw20_spec(
    asset_infos: [AssetInfo; 2],
    sender: String,
    amount: u128,
    msg: Cw20HookMsg,
) -> Result<ReceiveAction, ContractError> {
    match msg {
        Cw20HookMsg::Swap { belief_price, max_spread, to } => if is_pool_token_spec(
            asset_infos,
            sender,
        ) {
            Ok(
                ReceiveAction::Swap {
                    offer_asset: Asset { info: AssetInfo::Token { contract_addr: sender }, amount },
                    belief_price,
                    max_spread,
                    to,
                },
            )
        } else {
            Err(ContractError::Unauthorized)
        },
        Cw20HookMsg::WithdrawLiquidity => Ok(ReceiveAction::WithdrawLiquidity { amount }),
    }
}

/// Returns what the pool does with `amount` tokens that the contract `sender`
/// hands to it with the request `msg`.
pub fn receive_cw20(asset_infos: &[AssetInfo; 2], sender: String, amount: u128, msg: Cw20HookMsg)
    -> (r: Result<ReceiveAction, ContractError>)
    ensures
        r == receive_cw20_spec(*asset_infos, sender, amount, msg),
{
    match msg {
        Cw20HookMsg::Swap { belief_price, max_spread, to } => {
            if !is_pool_token(asset_infos, &sender) {
                return Err(ContractError::Unauthorized);
            }
            Ok(
                ReceiveAction::Swap {
                    offer_asset: Asset { info: AssetInfo::Token { contract_addr: sender }, amount },
                    belief_price,
                    max_spread,
                    to,
                },
            )
        },
        Cw20HookMsg::WithdrawLiquidity => Ok(ReceiveAction::WithdrawLiquidity { amount }),
    }
}

/// How new shares reach their owner.
#[derive(Clone, Debug, PartialEq, Eq)]
pub enum MintPlan {
    /// Mint `amount` to `recipient`.
    Direct { recipient: String, amount: u128 },
    /// Mint `amount` to the pool itself and have it send them to `generator`
    /// as a deposit for `recipient`.
    Staked { pool: String, generator: String, recipient: String, amount: u128 },
}

/// How `amount` new shares reach `recipient`: directly, or, where they are
/// to be staked at once, by way of the pool `contract_addr` and the staking
/// contract `generator`, which has to be known.
pub open spec fn mint_liquidity_token_message_spec(
    contract_addr: String,
    generator: Option<String>,
    recipient: String,
    amount: u128,
    auto_stake: bool,
) -> Result<MintPlan, ContractError> {
    if !auto_stake {
        Ok(MintPlan::Direct { recipient, amount })
    } else {
        match generator {
            None => Err(ContractError::AutoStakeError),
            Some(generator) => Ok(
                MintPlan::Staked { pool: contract_addr, generator, recipient, amount },
            ),
        }
    }
}

/// Returns how `amount` new shares reach `recipient`.
pub fn mint_liquidity_token_message(
    contract_addr: String,
    generator: Option<String>,
    recipient: String,
    amount: u128,
    auto_stake: bool,
) -> (r: Result<MintPlan, ContractError>)
    ensures
        r == mint_liquidity_token_message_spec(contract_addr, generator, recipient, amount, auto_stake),
{
    if !auto_stake {
        return Ok(MintPlan::Direct { recipient, amount });
    }
    match generator {
        None => Err(ContractError::AutoStakeError),
        Some(generator) => Ok(MintPlan::Staked { pool: contract_addr, generator, recipient, amount }),
    }
}

/// Checks that the stored contract is one that this version can take over:
/// the contract named `astroport-pair-stable` in version `1.0.0`. Any other
/// is refused with `MigrationError`.
pub fn migrate(contract: &String, version: &String) -> (r: Result<(), ContractError>)
    ensures
        r == if contract@ == "astroport-pair-stable"@ && version@ == "1.0.0"@ {
            Ok::<(), ContractError>(())
        } else {
            Err::<(), ContractError>(ContractError::MigrationError)
        },
{
    let name = "astroport-pair-stable".to_owned();
    let first = "1.0.0".to_owned();
    if *contract == name && *version == first {
        Ok(())
    } else {
        Err(ContractError::MigrationError)
    }
}

/// An amount of a native coin.
#[derive(Clone, Debug, PartialEq, Eq)]
pub struct Coin {
    pub denom: String,
    pub amount: u128,
}

/// Returns the amount of the first coin of the denomination `denom`, or zero
/// where there is none.
pub fn amount_of(coins: &[Coin], denom: String) -> (r: u128)
    ensures
        (forall|i: int| 0 <= i < coins@.len() ==> coins@[i].denom@ != denom@) ==> r == 0,
        forall|i: int|
            0 <= i < coins@.len() && coins@[i].denom@ == denom@ && (forall|j: int|
                0 <= j < i ==> coins@[j].denom@ != denom@) ==> r == coins@[i].amount,
{
    let mut k: usize = 0;
    while k < coins.len()
        invariant
            k <= coins@.len(),
            forall|j: int| 0 <= j < k ==> coins@[j].denom@ != denom@,
        decreases coins@.len() - k,
    {
        if coins[k].denom == denom {
            return coins[k].amount;
        }
        k = k + 1;
    }
    0
}

} // verus!
