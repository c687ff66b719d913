use vstd::prelude::*;

verus! {

/// Every way an operation of the pool can fail.
#[derive(Clone, Copy, Debug, PartialEq, Eq, Structural)]
pub enum ContractError {
    /// An addition, multiplication or subtraction left the range of its type.
    Overflow,
    /// A division had a zero divisor.
    DivideByZero,
    /// The iteration of the invariant solver used up its rounds.
    NotConverged,
    /// The caller may not perform the action.
    Unauthorized,
    /// A deposit leg is zero.
    InvalidZeroAmount,
    /// The swap loses more to spread than the caller tolerates.
    MaxSpreadAssertion,
    /// The tolerated spread is above what the pool allows at all.
    AllowedSpreadAssertion,
    /// The asset is not one of the two pooled assets.
    AssetMismatch,
    /// The amplification is zero or above the maximum.
    IncorrectAmp,
    /// The amplification would change by more than the allowed factor.
    MaxAmpChangeAssertion,
    /// The ramp starts too soon after the previous one or is too short.
    MinAmpChangingTimeAssertion,
    /// The pool was created without its parameters.
    InitParamsNotFound,
    /// Shares were to be staked but no staking contract is known.
    AutoStakeError,
    /// Both pooled assets are the same.
    DoublingAssets,
    /// The deposit mints no share.
    LiquidityAmountTooSmall,
    /// The stored contract is not one this version can migrate from.
    MigrationError,
    /// No share is staked for the account that claims a reward.
    NothingStaked,
    /// Only the staking contract may claim for an account.
    OnlyGenerator,
}

} // verus!
