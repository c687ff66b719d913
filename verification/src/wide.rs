//! Unsigned 256-bit numbers, for the intermediate products of the pool's
//! arithmetic. The value is held as four 64-bit words; the arithmetic itself
//! is done by `astroport::U256`.

use crate::error::ContractError;
use vstd::prelude::*;

verus! {

/// Two to the power 256: one more than the largest `U256`.
pub open spec fn limit() -> nat {
    0x1_0000_0000_0000_0000_0000_0000_0000_0000_0000_0000_0000_0000_0000_0000_0000_0000nat
}

/// An unsigned 256-bit number as four words, the least significant first.
#[derive(Clone, Copy, Debug)]
pub struct U256 {
    pub limbs: [u64; 4],
}

impl View for U256 {
    type V = nat;

    open spec fn view(&self) -> nat {
        (self.limbs[0] as nat) + (self.limbs[1] as nat) * 0x1_0000_0000_0000_0000
            + (self.limbs[2] as nat) * 0x1_0000_0000_0000_0000_0000_0000_0000_0000nat
            + (self.limbs[3] as nat) * 0x1_0000_0000_0000_0000_0000_0000_0000_0000_0000_0000_0000_0000nat
    }
}

/// The bound is the square of two to the power 128, which is one more than
/// the largest `u128`.
pub proof fn lemma_limit_is_two_to_256()
    ensures
        limit() == (u128::MAX + 1) * (u128::MAX + 1),
{
    let m = u128::MAX + 1;
    assert(m * m == limit()) by (nonlinear_arith)
        requires
            m == 0x1_0000_0000_0000_0000_0000_0000_0000_0000int,
            limit() == 0x1_0000_0000_0000_0000_0000_0000_0000_0000_0000_0000_0000_0000_0000_0000_0000_0000nat,
    ;
}

impl U256 {
    /// Every value is below the bound, and the value of four full words is
    /// the largest: one less than the bound.
    pub proof fn lemma_bounded(self)
        ensures
            self@ < limit(),
            self.limbs[0] == u64::MAX && self.limbs[1] == u64::MAX && self.limbs[2] == u64::MAX
                && self.limbs[3] == u64::MAX ==> self@ == limit() - 1,
    {
    }

    /// The 256-bit number with the value of `x`.
    pub fn from_u128(x: u128) -> (r: U256)
        ensures
            r@ == x,
    {
        let lo: u64 = (x % 0x1_0000_0000_0000_0000u128) as u64;
        let hi: u64 = (x / 0x1_0000_0000_0000_0000u128) as u64;
        U256 { limbs: [lo, hi, 0, 0] }
    }

    /// The value as a `u128`, where it fits.
    pub fn to_u128(&self) -> (r: Option<u128>)
        ensures
            self@ <= u128::MAX ==> r == Some(self@ as u128),
            self@ > u128::MAX ==> r is None,
    {
        if self.limbs[2] == 0 && self.limbs[3] == 0 {
            let lo: u128 = self.limbs[0] as u128;
            let hi: u128 = self.limbs[1] as u128;
            Some(hi * 0x1_0000_0000_0000_0000u128 + lo)
        } else {
            None
        }
    }

    /// The sum, or `Overflow` where it needs more than 256 bits.
    pub fn try_add(self, other: U256) -> (r: Result<U256, ContractError>)
        ensures
            self@ + other@ < limit() ==> r is Ok && r->Ok_0@ == self@ + other@,
            self@ + other@ >= limit() ==> r == Err::<U256, ContractError>(ContractError::Overflow),
    {
        match self.checked_add(other) {
            Some(v) => Ok(v),
            None => Err(ContractError::Overflow),
        }
    }

    /// The difference, or `Overflow` where `other` is the larger.
    pub fn try_sub(self, other: U256) -> (r: Result<U256, ContractError>)
        ensures
            self@ >= other@ ==> r is Ok && r->Ok_0@ == self@ - other@,
            self@ < other@ ==> r == Err::<U256, ContractError>(ContractError::Overflow),
    {
        match self.checked_sub(other) {
            Some(v) => Ok(v),
            None => Err(ContractError::Overflow),
        }
    }

    /// The product, or `Overflow` where it needs more than 256 bits.
    pub fn try_mul(self, other: U256) -> (r: Result<U256, ContractError>)
        ensures
            self@ * other@ < limit() ==> r is Ok && r->Ok_0@ == self@ * other@,
            self@ * other@ >= limit() ==> r == Err::<U256, ContractError>(ContractError::Overflow),
    {
        match self.checked_mul(other) {
            Some(v) => Ok(v),
            None => Err(ContractError::Overflow),
        }
    }

    /// The quotient rounded down, or `DivideByZero` where `other` is zero.
    pub fn try_div(self, other: U256) -> (r: Result<U256, ContractError>)
        ensures
            other@ != 0 ==> r is Ok && r->Ok_0@ == self@ / other@,
            other@ == 0 ==> r == Err::<U256, ContractError>(ContractError::DivideByZero),
    {
        match self.checked_div(other) {
            Some(v) => Ok(v),
            None => Err(ContractError::DivideByZero),
        }
    }

    /// The value as a `u128`, or `Overflow` where it does not fit.
    pub fn try_to_u128(&self) -> (r: Result<u128, ContractError>)
        ensures
            self@ <= u128::MAX ==> r == Ok::<u128, ContractError>(self@ as u128),
            self@ > u128::MAX ==> r == Err::<u128, ContractError>(ContractError::Overflow),
    {
        match self.to_u128() {
            Some(v) => Ok(v),
            None => Err(ContractError::Overflow),
        }
    }

    /// Whether the two values differ by at most one.
    pub fn is_within_one(self, other: U256) -> (r: bool)
        ensures
            r == (self@ - other@ <= 1 && other@ - self@ <= 1),
    {
        let diff = match self.checked_sub(other) {
            Some(v) => v,
            None => match other.checked_sub(self) {
                Some(v) => v,
                None => { return false; },
            },
        };
        diff.limbs[0] <= 1 && diff.limbs[1] == 0 && diff.limbs[2] == 0 && diff.limbs[3] == 0
    }

    /// Whether the two values are the same.
    pub fn is_same(self, other: U256) -> (r: bool)
        ensures
            r == (self@ == other@),
    {
        match self.checked_sub(other) {
            Some(diff) => diff.limbs[0] == 0 && diff.limbs[1] == 0 && diff.limbs[2] == 0
                && diff.limbs[3] == 0,
            None => false,
        }
    }

    /// The smaller of the two values.
    pub fn smaller(self, other: U256) -> (r: U256)
        ensures
            r@ == if self@ <= other@ {
                self@
            } else {
                other@
            },
    {
        match other.checked_sub(self) {
            Some(_) => self,
            None => other,
        }
    }

    /// `astroport::U256::checked_add`: the sum, or nothing where the sum
    /// needs more than 256 bits.
    #[verifier::external_body]
    pub(crate) fn checked_add(self, other: U256) -> (r: Option<U256>)
        ensures
            self@ + other@ < limit() ==> r is Some && r->0@ == self@ + other@,
            self@ + other@ >= limit() ==> r is None,
    {
        match astroport::U256(self.limbs).checked_add(astroport::U256(other.limbs)) {
            Some(v) => Some(U256 { limbs: v.0 }),
            None => None,
        }
    }

    /// `astroport::U256::checked_sub`: the difference, or nothing where
    /// `other` is the larger.
    #[verifier::external_body]
    pub(crate) fn checked_sub(self, other: U256) -> (r: Option<U256>)
        ensures
            self@ >= other@ ==> r is Some && r->0@ == self@ - other@,
            self@ < other@ ==> r is None,
    {
        match astroport::U256(self.limbs).checked_sub(astroport::U256(other.limbs)) {
            Some(v) => Some(U256 { limbs: v.0 }),
            None => None,
        }
    }

    /// `astroport::U256::checked_mul`: the product, or nothing where the
    /// product needs more than 256 bits.
    #[verifier::external_body]
    pub(crate) fn checked_mul(self, other: U256) -> (r: Option<U256>)
        ensures
            self@ * other@ < limit() ==> r is Some && r->0@ == self@ * other@,
            self@ * other@ >= limit() ==> r is None,
    {
        match astroport::U256(self.limbs).checked_mul(astroport::U256(other.limbs)) {
            Some(v) => Some(U256 { limbs: v.0 }),
            None => None,
        }
    }

    /// `astroport::U256::checked_div`: the quotient rounded down, or nothing
    /// where `other` is zero.
    #[verifier::external_body]
    pub(crate) fn checked_div(self, other: U256) -> (r: Option<U256>)
        ensures
            other@ != 0 ==> r is Some && r->0@ == self@ / other@,
            other@ == 0 ==> r is None,
    {
        match astroport::U256(self.limbs).checked_div(astroport::U256(other.limbs)) {
            Some(v) => Some(U256 { limbs: v.0 }),
            None => None,
        }
    }

    /// `astroport::U256::integer_sqrt`: the largest number whose square is
    /// not above `self`.
    #[verifier::external_body]
    pub(crate) fn integer_sqrt(self) -> (r: U256)
        ensures
            r@ * r@ <= self@ < (r@ + 1) * (r@ + 1),
    {
        U256 { limbs: astroport::U256(self.limbs).integer_sqrt().0 }
    }
}

} // verus!
