//! Royalties: what the verified creators of an asset are owed on a sale.

use vstd::prelude::*;
use crate::address::Address;
use crate::arith::{lemma_proportion_bounded, lemma_proportion_superadditive, mul_div, proportion};
use crate::error::MarketError;

verus! {

/// Percent in a whole.
pub const SHARE_DENOMINATOR: u64 = 100;

/// An entry of the metadata registry: a creator of an asset and the percentage
/// of a sale price that the creator is owed once verified.
#[derive(Clone, Copy, Debug, PartialEq, Eq)]
pub struct Creator {
    pub address: Address,
    pub verified: bool,
    pub share: u8,
}

/// The creators that the registry lists for an asset, none where it has no list.
pub open spec fn registry_list(creators: Option<Vec<Creator>>) -> Seq<Creator> {
    match creators {
        Some(list) => list@,
        None => Seq::empty(),
    }
}

/// The royalty of a creator with `share` percent on a sale at `price`.
pub open spec fn royalty_fee(price: nat, share: nat) -> nat {
    proportion(price, share, SHARE_DENOMINATOR as nat)
}

/// The royalties owed on a sale at `price`: one entry for each verified
/// creator, in the order of the registry.
pub open spec fn royalties(price: nat, creators: Seq<Creator>) -> Seq<(Address, nat)> {
    creators.filter(|c: Creator| c.verified).map_values(
        |c: Creator| (c.address, royalty_fee(price, c.share as nat)),
    )
}

/// The sum of the amounts of `dues`.
pub open spec fn total_due(dues: Seq<(Address, nat)>) -> nat
    decreases dues.len(),
{
    if dues.len() == 0 {
        0
    } else {
        total_due(dues.drop_last()) + dues.last().1
    }
}

/// What is left of `price` after the royalties; negative where they come to
/// more than the price.
pub open spec fn royalty_remainder(price: nat, creators: Seq<Creator>) -> int {
    price - total_due(royalties(price, creators))
}

/// A list of payments as specifications see it, the amounts natural numbers.
pub open spec fn dues_of(payments: Seq<(Address, u64)>) -> Seq<(Address, nat)> {
    payments.map_values(|p: (Address, u64)| (p.0, p.1 as nat))
}

/// The sum of the shares of the verified creators.
pub open spec fn verified_share(creators: Seq<Creator>) -> nat
    decreases creators.len(),
{
    if creators.len() == 0 {
        0
    } else {
        verified_share(creators.drop_last()) + if creators.last().verified {
            creators.last().share as nat
        } else {
            0
        }
    }
}

/// The royalties of a list that grows by one creator.
pub proof fn lemma_royalties_push(price: nat, creators: Seq<Creator>, c: Creator)
    ensures
        royalties(price, creators.push(c)) == if c.verified {
            royalties(price, creators).push((c.address, royalty_fee(price, c.share as nat)))
        } else {
            royalties(price, creators)
        },
{
    reveal(Seq::filter);
    assert(creators.push(c).drop_last() == creators);
}

/// One more due adds its amount to the total.
pub proof fn lemma_total_due_push(dues: Seq<(Address, nat)>, due: (Address, nat))
    ensures
        total_due(dues.push(due)) == total_due(dues) + due.1,
{
    assert(dues.push(due).drop_last() == dues);
}

/// The royalties of the first `n` creators come to no more than those of all.
pub proof fn lemma_royalties_prefix(price: nat, creators: Seq<Creator>, n: int)
    requires
        0 <= n <= creators.len(),
    ensures
        total_due(royalties(price, creators.take(n))) <= total_due(royalties(price, creators)),
    decreases creators.len() - n,
{
    if n == creators.len() {
        assert(creators.take(n) == creators);
    } else {
        lemma_royalties_prefix(price, creators, n + 1);
        assert(creators.take(n + 1) == creators.take(n).push(creators[n]));
        lemma_royalties_push(price, creators.take(n), creators[n]);
        if creators[n].verified {
            lemma_total_due_push(
                royalties(price, creators.take(n)),
                (creators[n].address, royalty_fee(price, creators[n].share as nat)),
            );
        }
    }
}

/// The royalties come to no more than the verified shares' percentage of the
/// price.
pub proof fn lemma_royalties_within_share(price: nat, creators: Seq<Creator>)
    ensures
        total_due(royalties(price, creators)) <= proportion(
            price,
            verified_share(creators),
            SHARE_DENOMINATOR as nat,
        ),
    decreases creators.len(),
{
    if creators.len() == 0 {
        reveal(Seq::filter);
    } else {
        let rest = creators.drop_last();
        let c = creators.last();
        lemma_royalties_within_share(price, rest);
        assert(creators == rest.push(c));
        lemma_royalties_push(price, rest, c);
        if c.verified {
            lemma_total_due_push(
                royalties(price, rest),
                (c.address, royalty_fee(price, c.share as nat)),
            );
            lemma_proportion_superadditive(
                price,
                verified_share(rest),
                c.share as nat,
                SHARE_DENOMINATOR as nat,
            );
        }
    }
}

/// Where the verified shares come to at most a hundred percent, the royalties
/// come to at most the price.
pub proof fn lemma_royalties_within_price(price: nat, creators: Seq<Creator>)
    requires
        verified_share(creators) <= SHARE_DENOMINATOR,
    ensures
        total_due(royalties(price, creators)) <= price,
{
    lemma_royalties_within_share(price, creators);
    lemma_proportion_bounded(price, verified_share(creators), SHARE_DENOMINATOR as nat);
}

/// Computes the royalties on a sale at `price` and what is left of the price
/// after them. Each verified creator, in the order of the registry, is owed
/// `price * share / 100`, rounded down; the others are owed nothing and get no
/// entry. Fails with `ArithmeticOverflow` exactly where the royalties come to
/// more than the price.
pub fn calculate_creator_payments(price: u64, creators: &Option<Vec<Creator>>) -> (r: Result<
    (Vec<(Address, u64)>, u64),
    MarketError,
>)
    ensures
        match r {
            Ok((payments, remainder)) => {
                &&& dues_of(payments@) == royalties(price as nat, registry_list(*creators))
                &&& remainder == royalty_remainder(price as nat, registry_list(*creators))
                &&& total_due(dues_of(payments@)) + remainder == price
            },
            Err(e) => {
                &&& e == MarketError::ArithmeticOverflow
                &&& royalty_remainder(price as nat, registry_list(*creators)) < 0
            },
        },
{
    let mut payments: Vec<(Address, u64)> = Vec::new();
    let mut remainder: u64 = price;
    let ghost all = registry_list(*creators);
    assert(all.take(0) == Seq::<Creator>::empty());
    assert(dues_of(payments@) == royalties(price as nat, all.take(0))) by {
        reveal(Seq::filter);
    }
    if let Some(list) = creators {
        let mut i: usize = 0;
        while i < list.len()
            invariant
                i <= list.len(),
                all == list@,
                all == registry_list(*creators),
                dues_of(payments@) == royalties(price as nat, all.take(i as int)),
                remainder + total_due(royalties(price as nat, all.take(i as int))) == price,
            decreases list.len() - i,
        {
            let creator = list[i];
            proof {
                assert(all.take(i + 1) == all.take(i as int).push(creator));
                lemma_royalties_push(price as nat, all.take(i as int), creator);
                lemma_royalties_prefix(price as nat, all, i + 1);
            }
            if creator.verified {
                proof {
                    lemma_total_due_push(
                        royalties(price as nat, all.take(i as int)),
                        (creator.address, royalty_fee(price as nat, creator.share as nat)),
                    );
                }
                let fee = match mul_div(price, creator.share as u64, SHARE_DENOMINATOR) {
                    Ok(fee) => fee,
                    Err(e) => {
                        return Err(e);
                    },
                };
                if fee > remainder {
                    return Err(MarketError::ArithmeticOverflow);
                }
                let ghost paid = payments@;
                payments.push((creator.address, fee));
                remainder = remainder - fee;
                assert(dues_of(payments@) == dues_of(paid).push((creator.address, fee as nat)));
            }
            i += 1;
        }
        assert(all.take(i as int) == all);
    }
    Ok((payments, remainder))
}

} // verus!
