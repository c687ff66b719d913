//! Amounts of assets with different numbers of decimal digits are brought
//! to one precision before they are compared or combined.

use crate::error::ContractError;
use vstd::arithmetic::div_mod::{
    lemma_div_basics,
    lemma_div_denominator,
    lemma_div_is_ordered_by_denominator,
    lemma_div_pos_is_pos,
    lemma_remainder_lower,
};
use vstd::arithmetic::mul::{lemma_mul_inequality, lemma_mul_is_commutative};
use vstd::prelude::*;

verus! {

/// Ten to the power `n`.
pub open spec fn pow10(n: nat) -> int
    decreases n,
{
    if n == 0 {
        1
    } else {
        10 * pow10((n - 1) as nat)
    }
}

/// Powers of ten are positive and grow with the exponent.
pub proof fn lemma_pow10_increases(m: nat, n: nat)
    requires
        m <= n,
    ensures
        0 < pow10(m) <= pow10(n),
    decreases n,
{
    if n == 0 {
    } else if m == n {
        lemma_pow10_increases((m - 1) as nat, (n - 1) as nat);
    } else {
        lemma_pow10_increases(m, (n - 1) as nat);
    }
}

/// `value` at `new_precision` decimal digits where it was at
/// `current_precision`: multiplied by a power of ten where digits are added,
/// divided by one, rounding down, where digits are dropped.
pub open spec fn adjust_precision_spec(value: u128, current_precision: u8, new_precision: u8)
    -> Result<u128, ContractError> {
    if current_precision == new_precision {
        Ok(value)
    } else if current_precision < new_precision {
        let scaled = value * pow10((new_precision - current_precision) as nat);
        if scaled > u128::MAX {
            Err(ContractError::Overflow)
        } else {
            Ok(scaled as u128)
        }
    } else {
        Ok(((value as int) / pow10((current_precision - new_precision) as nat)) as u128)
    }
}

/// Returns `value` at `new_precision` decimal digits where it was at
/// `current_precision`. Adding digits fails with `Overflow` where the result
/// does not fit; dropping digits rounds down.
pub fn adjust_precision(value: u128, current_precision: u8, new_precision: u8) -> (r: Result<
    u128,
    ContractError,
>)
    ensures
        r == adjust_precision_spec(value, current_precision, new_precision),
{
    if current_precision == new_precision {
        Ok(value)
    } else if current_precision < new_precision {
        let n: u8 = new_precision - current_precision;
        let mut v: u128 = value;
        let mut i: u8 = 0;
        while i < n
            invariant
                i <= n,
                n == new_precision - current_precision,
                current_precision < new_precision,
                v == value * pow10(i as nat),
            decreases n - i,
        {
            proof {
                let p = pow10(i as nat);
                assert(v * 10 == value * (10 * p)) by (nonlinear_arith)
                    requires
                        v == value * p,
                ;
            }
            v = match v.checked_mul(10) {
                Some(x) => x,
                None => {
                    proof {
                        lemma_pow10_increases((i + 1) as nat, n as nat);
                        lemma_mul_inequality(pow10((i + 1) as nat), pow10(n as nat), value as int);
                        lemma_mul_is_commutative(pow10((i + 1) as nat), value as int);
                        lemma_mul_is_commutative(pow10(n as nat), value as int);
                    }
                    return Err(ContractError::Overflow);
                },
            };
            i = i + 1;
        }
        Ok(v)
    } else {
        let n: u8 = current_precision - new_precision;
        let mut v: u128 = value;
        let mut i: u8 = 0;
        while i < n
            invariant
                i <= n,
                v == (value as int) / pow10(i as nat),
            decreases n - i,
        {
            proof {
                lemma_pow10_increases(0, i as nat);
                lemma_div_denominator(value as int, pow10(i as nat), 10);
                lemma_mul_is_commutative(pow10(i as nat), 10);
            }
            v = v / 10;
            i = i + 1;
        }
        Ok(v)
    }
}

/// Bringing an amount to the precision it already has changes nothing, so
/// doing it twice is the same as doing it once.
pub proof fn lemma_adjust_precision_same(value: u128, precision: u8)
    ensures
        adjust_precision_spec(value, precision, precision) == Ok::<u128, ContractError>(value),
{
}

/// Dropping digits and adding them again never fails and never gives more
/// than the amount at the start: what the division cut off stays lost.
pub proof fn lemma_adjust_precision_round_trip(value: u128, a: u8, b: u8)
    requires
        a > b,
    ensures
        adjust_precision_spec(value, a, b) is Ok,
        adjust_precision_spec(adjust_precision_spec(value, a, b)->Ok_0, b, a) is Ok,
        adjust_precision_spec(adjust_precision_spec(value, a, b)->Ok_0, b, a)->Ok_0 <= value,
{
    let p = pow10((a - b) as nat);
    lemma_pow10_increases(0, (a - b) as nat);
    lemma_remainder_lower(value as int, p);
    lemma_div_pos_is_pos(value as int, p);
    lemma_div_is_ordered_by_denominator(value as int, 1, p);
    lemma_div_basics(value as int);
}

} // verus!
