//! The platform fee on what is left of a price after royalties, and its split
//! between the marketplace and the second-highest bidder.

use vstd::prelude::*;
use crate::arith::{lemma_proportion_bounded, mul_div, proportion};
use crate::error::MarketError;

verus! {

/// Basis points in a whole.
pub const FEE_DENOMINATOR: u64 = 10000;

/// The platform fee, in basis points of what is left after royalties.
pub const PLATFORM_FEE_BPS: u64 = 250;

/// The marketplace's nominal share of the platform fee, in basis points.
pub const MARKETPLACE_FEE_SHARE: u64 = 9000;

/// The second-highest bidder's nominal share of the platform fee, in basis points.
pub const SECOND_BIDDER_FEE_SHARE: u64 = 1000;

/// The platform fee on `remainder`.
pub open spec fn total_fee(remainder: nat) -> nat {
    proportion(remainder, PLATFORM_FEE_BPS as nat, FEE_DENOMINATOR as nat)
}

/// The marketplace's nominal share of the platform fee on `remainder`.
pub open spec fn nominal_marketplace_fee(remainder: nat) -> nat {
    proportion(total_fee(remainder), MARKETPLACE_FEE_SHARE as nat, FEE_DENOMINATOR as nat)
}

/// The second-highest bidder's nominal share of the platform fee on `remainder`.
pub open spec fn nominal_rebate(remainder: nat) -> nat {
    proportion(total_fee(remainder), SECOND_BIDDER_FEE_SHARE as nat, FEE_DENOMINATOR as nat)
}

/// The rebate paid to the second-highest bidder: the nominal rebate, but never
/// more than that bidder's own bid.
pub open spec fn rebate_fee(remainder: nat, second_highest_bid: nat) -> nat {
    if nominal_rebate(remainder) <= second_highest_bid {
        nominal_rebate(remainder)
    } else {
        second_highest_bid
    }
}

/// What the marketplace keeps: all of the platform fee that is not rebated.
/// That is its nominal share, what the cap withheld from the rebate, and the
/// unit that rounding the two shares down may leave over.
pub open spec fn marketplace_fee(remainder: nat, second_highest_bid: nat) -> nat {
    (total_fee(remainder) - rebate_fee(remainder, second_highest_bid)) as nat
}

/// What the seller receives: the remainder less the platform fee.
pub open spec fn seller_payment(remainder: nat) -> nat {
    (remainder - total_fee(remainder)) as nat
}

/// The platform fee is at most the remainder, and the rebate at most the fee.
pub proof fn lemma_fee_bounds(remainder: nat, second_highest_bid: nat)
    ensures
        total_fee(remainder) <= remainder,
        nominal_rebate(remainder) <= total_fee(remainder),
        rebate_fee(remainder, second_highest_bid) <= total_fee(remainder),
{
    lemma_proportion_bounded(remainder, PLATFORM_FEE_BPS as nat, FEE_DENOMINATOR as nat);
    lemma_proportion_bounded(
        total_fee(remainder),
        SECOND_BIDDER_FEE_SHARE as nat,
        FEE_DENOMINATOR as nat,
    );
}

/// Splits what is left of a price after royalties into the marketplace's fee,
/// the rebate to the second-highest bidder and the seller's proceeds, in that
/// order. The platform fee is 2.5% of `amount`, rounded down; a tenth of it,
/// rounded down and capped at `second_highest_bid`, is the rebate; the
/// marketplace keeps the rest of the fee, and the seller the rest of `amount`.
/// Never fails.
pub fn calculate_and_distribute_fee(amount: u64, second_highest_bid: u64) -> (r: Result<
    (u64, u64, u64),
    MarketError,
>)
    ensures
        match r {
            Ok((marketplace, rebate, seller)) => {
                &&& marketplace == marketplace_fee(amount as nat, second_highest_bid as nat)
                &&& rebate == rebate_fee(amount as nat, second_highest_bid as nat)
                &&& seller == seller_payment(amount as nat)
                &&& marketplace + rebate + seller == amount
                &&& rebate <= second_highest_bid
                &&& rebate <= nominal_rebate(amount as nat)
            },
            Err(_) => false,
        },
{
    proof {
        lemma_fee_bounds(amount as nat, second_highest_bid as nat);
    }
    let fee = match mul_div(amount, PLATFORM_FEE_BPS, FEE_DENOMINATOR) {
        Ok(fee) => fee,
        Err(e) => {
            return Err(e);
        },
    };
    let nominal = match mul_div(fee, SECOND_BIDDER_FEE_SHARE, FEE_DENOMINATOR) {
        Ok(nominal) => nominal,
        Err(e) => {
            return Err(e);
        },
    };
    let rebate = if nominal <= second_highest_bid {
        nominal
    } else {
        second_highest_bid
    };
    Ok((fee - rebate, rebate, amount - fee))
}

} // verus!
