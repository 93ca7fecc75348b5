//! Proportions of 64-bit amounts, formed in 128 bits.

use vstd::prelude::*;
use crate::error::MarketError;

verus! {

/// `value * numerator / denominator`, rounded down.
pub open spec fn proportion(value: nat, numerator: nat, denominator: nat) -> nat {
    (value * numerator) / denominator
}

/// A proportion of at most the whole is at most the value.
pub proof fn lemma_proportion_bounded(value: nat, numerator: nat, denominator: nat)
    requires
        denominator > 0,
        numerator <= denominator,
    ensures
        proportion(value, numerator, denominator) <= value,
{
    assert(value * numerator <= value * denominator) by (nonlinear_arith)
        requires
            numerator <= denominator,
    ;
    assert((value * numerator) / denominator <= value) by (nonlinear_arith)
        requires
            denominator > 0,
            value * numerator <= value * denominator,
    ;
}

/// Two proportions of one value come to no more than the proportion of the
/// two numerators together: rounding down twice loses at least as much as
/// rounding down once.
pub proof fn lemma_proportion_superadditive(value: nat, a: nat, b: nat, denominator: nat)
    requires
        denominator > 0,
    ensures
        proportion(value, a, denominator) + proportion(value, b, denominator) <= proportion(
            value,
            a + b,
            denominator,
        ),
{
    let x = value * a;
    let y = value * b;
    assert(value * (a + b) == x + y) by (nonlinear_arith)
        requires
            x == value * a,
            y == value * b,
    ;
    assert(x / denominator + y / denominator <= (x + y) / denominator) by (nonlinear_arith)
        requires
            denominator > 0,
    ;
}

/// `value * numerator / denominator`, rounded down. The product is formed in
/// 128 bits, and the quotient is checked against the range of `u64` before it
/// is narrowed. Fails with `ArithmeticOverflow` exactly where the denominator
/// is zero or the quotient does not fit.
pub fn mul_div(value: u64, numerator: u64, denominator: u64) -> (r: Result<u64, MarketError>)
    ensures
        match r {
            Ok(q) => {
                &&& denominator > 0
                &&& q == proportion(value as nat, numerator as nat, denominator as nat)
            },
            Err(e) => {
                &&& e == MarketError::ArithmeticOverflow
                &&& denominator == 0 || proportion(
                    value as nat,
                    numerator as nat,
                    denominator as nat,
                ) > u64::MAX
            },
        },
{
    if denominator == 0 {
        return Err(MarketError::ArithmeticOverflow);
    }
    assert((value as u128) * (numerator as u128) <= 0xFFFF_FFFF_FFFF_FFFF * 0xFFFF_FFFF_FFFF_FFFF)
        by (nonlinear_arith);
    let product: u128 = (value as u128) * (numerator as u128);
    let quotient: u128 = product / (denominator as u128);
    if quotient > u64::MAX as u128 {
        Err(MarketError::ArithmeticOverflow)
    } else {
        Ok(quotient as u64)
    }
}

} // verus!
