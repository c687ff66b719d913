//! Fixed-point fractions with eighteen decimal digits, and the one
//! three-number operation that all of them rest on: `a * n / d` without
//! losing the high bits of the product.

use crate::error::ContractError;
use crate::wide::U256;
use vstd::prelude::*;

verus! {

/// The number of atomic units in one: ten to the power eighteen.
pub const DECIMAL_FRACTIONAL: u128 = 1_000_000_000_000_000_000;

/// The square of `DECIMAL_FRACTIONAL`.
pub const DECIMAL_FRACTIONAL_SQUARED: u128 = 1_000_000_000_000_000_000_000_000_000_000_000_000;

/// `a * numerator / denominator`, rounded down.
pub open spec fn multiply_ratio_spec(a: u128, numerator: u128, denominator: u128) -> Result<
    u128,
    ContractError,
> {
    if denominator == 0 {
        Err(ContractError::DivideByZero)
    } else if a * numerator / (denominator as int) > u128::MAX {
        Err(ContractError::Overflow)
    } else {
        Ok((a * numerator / (denominator as int)) as u128)
    }
}

/// `cosmwasm_std::Uint128::checked_multiply_ratio`: `a * numerator /
/// denominator` rounded down, with the product taken in 256 bits. It fails
/// with `DivideByZero` where the denominator is zero, and otherwise with
/// `Overflow` where the quotient does not fit in 128 bits.
#[verifier::external_body]
pub(crate) fn checked_multiply_ratio(a: u128, numerator: u128, denominator: u128) -> (r: Result<
    u128,
    ContractError,
>)
    ensures
        r == multiply_ratio_spec(a, numerator, denominator),
{
    match cosmwasm_std::Uint128::new(a).checked_multiply_ratio(numerator, denominator) {
        Ok(v) => Ok(v.u128()),
        Err(cosmwasm_std::CheckedMultiplyRatioError::DivideByZero) => Err(
            ContractError::DivideByZero,
        ),
        Err(cosmwasm_std::CheckedMultiplyRatioError::Overflow) => Err(ContractError::Overflow),
    }
}

/// A fraction with eighteen decimal digits: `atomics / 10^18`.
#[derive(Clone, Copy, Debug, PartialEq, Eq, Structural)]
pub struct Decimal {
    pub atomics: u128,
}

impl Decimal {
    /// The fraction of `atomics` atomic units.
    pub fn raw(atomics: u128) -> (r: Decimal)
        ensures
            r.atomics == atomics,
    {
        Decimal { atomics }
    }

    /// Zero.
    pub fn zero() -> (r: Decimal)
        ensures
            r.atomics == 0,
    {
        Decimal { atomics: 0 }
    }

    /// One.
    pub fn one() -> (r: Decimal)
        ensures
            r.atomics == DECIMAL_FRACTIONAL,
    {
        Decimal { atomics: DECIMAL_FRACTIONAL }
    }

    /// `x` percent.
    pub fn percent(x: u64) -> (r: Decimal)
        ensures
            r.atomics == x * 10_000_000_000_000_000,
    {
        Decimal { atomics: (x as u128) * 10_000_000_000_000_000 }
    }

    /// `x` per thousand.
    pub fn permille(x: u64) -> (r: Decimal)
        ensures
            r.atomics == x * 1_000_000_000_000_000,
    {
        Decimal { atomics: (x as u128) * 1_000_000_000_000_000 }
    }

    /// `numerator / denominator` as a fraction, rounded down to eighteen
    /// digits.
    pub open spec fn from_ratio_spec(numerator: u128, denominator: u128) -> Result<
        Decimal,
        ContractError,
    > {
        match multiply_ratio_spec(numerator, DECIMAL_FRACTIONAL, denominator) {
            Ok(atomics) => Ok(Decimal { atomics }),
            Err(e) => Err(e),
        }
    }

    /// Returns `numerator / denominator` as a fraction, rounded down to
    /// eighteen digits. Fails with `DivideByZero` where the denominator is
    /// zero and with `Overflow` where the fraction has no room.
    pub fn from_ratio(numerator: u128, denominator: u128) -> (r: Result<Decimal, ContractError>)
        ensures
            r == Self::from_ratio_spec(numerator, denominator),
    {
        let atomics = checked_multiply_ratio(numerator, DECIMAL_FRACTIONAL, denominator)?;
        Ok(Decimal { atomics })
    }

    /// The product of an amount and the fraction, rounded down.
    pub open spec fn mul_uint_spec(self, amount: u128) -> Result<u128, ContractError> {
        multiply_ratio_spec(amount, self.atomics, DECIMAL_FRACTIONAL)
    }

    /// Returns the product of an amount and the fraction, rounded down.
    /// Fails with `Overflow` where the product does not fit.
    pub fn mul_uint(self, amount: u128) -> (r: Result<u128, ContractError>)
        ensures
            r == self.mul_uint_spec(amount),
    {
        checked_multiply_ratio(amount, self.atomics, DECIMAL_FRACTIONAL)
    }

    /// One divided by the fraction, rounded down to eighteen digits.
    pub open spec fn inv_spec(self) -> Result<Decimal, ContractError> {
        if self.atomics == 0 {
            Err(ContractError::DivideByZero)
        } else {
            Ok(Decimal { atomics: DECIMAL_FRACTIONAL_SQUARED / self.atomics })
        }
    }

    /// Returns one divided by the fraction, rounded down to eighteen digits.
    /// Fails with `DivideByZero` where the fraction is zero.
    pub fn inv(self) -> (r: Result<Decimal, ContractError>)
        ensures
            r == self.inv_spec(),
    {
        if self.atomics == 0 {
            Err(ContractError::DivideByZero)
        } else {
            Ok(Decimal { atomics: DECIMAL_FRACTIONAL_SQUARED / self.atomics })
        }
    }
}

/// A fraction with eighteen decimal digits and 256 bits: `atomics / 10^18`.
#[derive(Clone, Copy, Debug)]
pub struct Decimal256 {
    pub atomics: U256,
}

impl View for Decimal256 {
    type V = nat;

    /// The number of atomic units.
    open spec fn view(&self) -> nat {
        self.atomics@
    }
}

impl Decimal256 {
    /// Zero.
    pub fn zero() -> (r: Decimal256)
        ensures
            r@ == 0,
    {
        Decimal256 { atomics: U256::from_u128(0) }
    }

    /// The fraction of `atomics` atomic units.
    pub fn raw(atomics: u128) -> (r: Decimal256)
        ensures
            r@ == atomics,
    {
        Decimal256 { atomics: U256::from_u128(atomics) }
    }
}

} // verus!
