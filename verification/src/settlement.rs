//! The settlement of a sale: the payment tuple that a price is split into, and
//! the order in which the payments leave the funding source.

use vstd::prelude::*;
use crate::address::Address;
use crate::custody::{movements, total_moved, Holding, Movement, Transfer};
use crate::error::MarketError;
use crate::fee::{
    calculate_and_distribute_fee, lemma_fee_bounds, marketplace_fee, rebate_fee, seller_payment,
};
use crate::royalty::{
    calculate_creator_payments, dues_of, lemma_total_due_push, registry_list, royalties,
    royalty_remainder, total_due, Creator,
};

verus! {

/// Where the payments of a settlement come from and whom they go to. The
/// seller, the marketplace and the second-highest bidder are paid into their
/// funds, as is each creator.
#[derive(Clone, Copy, Debug, PartialEq, Eq)]
pub struct Payees {
    pub source: Holding,
    pub seller: Address,
    pub marketplace: Address,
    pub second_bidder: Address,
}

/// The payment of `amount` from `source` into the funds of `owner`.
pub open spec fn payment(source: Holding, owner: Address, amount: nat) -> Movement {
    Movement { from: source, to: Holding::Funds { owner }, amount }
}

/// Every payment of a settlement, in the order in which they are made: the
/// seller, each creator in the order of the list, the marketplace, the
/// second-highest bidder.
pub open spec fn payouts(
    payees: Payees,
    seller_payment: nat,
    creator_dues: Seq<(Address, nat)>,
    marketplace_fee: nat,
    rebate_fee: nat,
) -> Seq<Movement> {
    seq![payment(payees.source, payees.seller, seller_payment)] + creator_dues.map_values(
        |due: (Address, nat)| payment(payees.source, due.0, due.1),
    ) + seq![
        payment(payees.source, payees.marketplace, marketplace_fee),
        payment(payees.source, payees.second_bidder, rebate_fee),
    ]
}

/// Whether a movement moves anything.
pub open spec fn moving() -> spec_fn(Movement) -> bool {
    |m: Movement| m.amount > 0
}

/// The payments that the ledger is asked for: those of `payouts` that move
/// anything.
pub open spec fn payment_plan(
    payees: Payees,
    seller_payment: nat,
    creator_dues: Seq<(Address, nat)>,
    marketplace_fee: nat,
    rebate_fee: nat,
) -> Seq<Movement> {
    payouts(payees, seller_payment, creator_dues, marketplace_fee, rebate_fee).filter(moving())
}

/// Filtering a list that grows by one element.
pub proof fn lemma_filter_push<A>(s: Seq<A>, x: A, keep: spec_fn(A) -> bool)
    ensures
        s.push(x).filter(keep) == if keep(x) {
            s.filter(keep).push(x)
        } else {
            s.filter(keep)
        },
{
    reveal(Seq::filter);
    assert(s.push(x).drop_last() == s);
}

/// One more movement adds its amount to the total.
pub proof fn lemma_total_moved_push(moves: Seq<Movement>, m: Movement)
    ensures
        total_moved(moves.push(m)) == total_moved(moves) + m.amount,
{
    assert(moves.push(m).drop_last() == moves);
}

/// Leaving out the movements of nothing does not change the total.
pub proof fn lemma_total_moved_without_zeros(moves: Seq<Movement>)
    ensures
        total_moved(moves.filter(moving())) == total_moved(moves),
    decreases moves.len(),
{
    reveal(Seq::filter);
    if moves.len() > 0 {
        lemma_total_moved_without_zeros(moves.drop_last());
        if moves.last().amount > 0 {
            lemma_total_moved_push(moves.drop_last().filter(moving()), moves.last());
        }
    }
}

/// The first `n` payments of a settlement: the seller's and those of the first
/// `n - 1` creators.
proof fn lemma_payouts_prefix(
    payees: Payees,
    seller_payment: nat,
    creator_dues: Seq<(Address, nat)>,
    marketplace_fee: nat,
    rebate_fee: nat,
    n: int,
)
    requires
        0 <= n < creator_dues.len(),
    ensures
        payouts(payees, seller_payment, creator_dues, marketplace_fee, rebate_fee).take(n + 2)
            == payouts(payees, seller_payment, creator_dues, marketplace_fee, rebate_fee).take(
            n + 1,
        ).push(payment(payees.source, creator_dues[n].0, creator_dues[n].1)),
{
}

/// The payments of a settlement move what the four components come to.
pub proof fn lemma_payment_plan_total(
    payees: Payees,
    seller_payment: nat,
    creator_dues: Seq<(Address, nat)>,
    marketplace_fee: nat,
    rebate_fee: nat,
)
    ensures
        total_moved(
            payment_plan(payees, seller_payment, creator_dues, marketplace_fee, rebate_fee),
        ) == seller_payment + total_due(creator_dues) + marketplace_fee + rebate_fee,
{
    let all = payouts(payees, seller_payment, creator_dues, marketplace_fee, rebate_fee);
    lemma_total_moved_without_zeros(all);
    let n = creator_dues.len() as int;
    lemma_payouts_creators_total(payees, seller_payment, creator_dues, marketplace_fee, rebate_fee, n);
    assert(creator_dues.take(n) == creator_dues);
    assert(all.take(n + 2) == all.take(n + 1).push(all[n + 1]));
    lemma_total_moved_push(all.take(n + 1), all[n + 1]);
    assert(all.take(n + 3) == all.take(n + 2).push(all[n + 2]));
    lemma_total_moved_push(all.take(n + 2), all[n + 2]);
    assert(all.take(n + 3) == all);
}

/// The seller's payment and those of the first `n` creators move what they
/// come to.
proof fn lemma_payouts_creators_total(
    payees: Payees,
    seller_payment: nat,
    creator_dues: Seq<(Address, nat)>,
    marketplace_fee: nat,
    rebate_fee: nat,
    n: int,
)
    requires
        0 <= n <= creator_dues.len(),
    ensures
        total_moved(
            payouts(payees, seller_payment, creator_dues, marketplace_fee, rebate_fee).take(n + 1),
        ) == seller_payment + total_due(creator_dues.take(n)),
    decreases n,
{
    let all = payouts(payees, seller_payment, creator_dues, marketplace_fee, rebate_fee);
    if n == 0 {
        assert(all.take(1) == Seq::<Movement>::empty().push(all[0]));
        lemma_total_moved_push(Seq::<Movement>::empty(), all[0]);
        assert(creator_dues.take(0) == Seq::<(Address, nat)>::empty());
    } else {
        lemma_payouts_creators_total(
            payees,
            seller_payment,
            creator_dues,
            marketplace_fee,
            rebate_fee,
            n - 1,
        );
        lemma_payouts_prefix(payees, seller_payment, creator_dues, marketplace_fee, rebate_fee, n - 1);
        lemma_total_moved_push(all.take(n), all[n]);
        assert(creator_dues.take(n) == creator_dues.take(n - 1).push(creator_dues[n - 1]));
        lemma_total_due_push(creator_dues.take(n - 1), creator_dues[n - 1]);
    }
}

/// Every payment that the ledger is asked for moves something from the source
/// into somebody's funds.
pub proof fn lemma_payment_plan_shape(
    payees: Payees,
    seller_payment: nat,
    creator_dues: Seq<(Address, nat)>,
    marketplace_fee: nat,
    rebate_fee: nat,
)
    ensures
        ({
            let plan = payment_plan(
                payees,
                seller_payment,
                creator_dues,
                marketplace_fee,
                rebate_fee,
            );
            forall|i: int|
                0 <= i < plan.len() ==> {
                    &&& (#[trigger] plan[i]).from == payees.source
                    &&& plan[i].to is Funds
                    &&& plan[i].amount > 0
                }
        }),
{
    let all = payouts(payees, seller_payment, creator_dues, marketplace_fee, rebate_fee);
    let plan = all.filter(moving());
    assert forall|i: int| 0 <= i < plan.len() implies plan[i].from == payees.source
        && plan[i].to is Funds && plan[i].amount > 0 by {
        all.lemma_filter_pred(moving(), i);
        assert(plan.contains(plan[i]));
        all.lemma_filter_contains_rev(moving(), plan[i]);
        let j = choose|j: int| 0 <= j < all.len() && all[j] == plan[i];
        assert(all[j].from == payees.source && all[j].to is Funds);
    }
}

/// Lists the transfers that pay out a settlement, all from `payees.source`:
/// to the seller, then to each creator in the order of `creator_payments`,
/// then to the marketplace, then to the second-highest bidder. A payment of
/// nothing is left out. The ledger is to carry the list out as one unit.
pub fn transfer_payments(
    payees: &Payees,
    seller_payment: u64,
    creator_payments: &[(Address, u64)],
    marketplace_fee: u64,
    second_bidder_fee: u64,
) -> (plan: Vec<Transfer>)
    ensures
        movements(plan@) == payment_plan(
            *payees,
            seller_payment as nat,
            dues_of(creator_payments@),
            marketplace_fee as nat,
            second_bidder_fee as nat,
        ),
{
    let ghost dues = dues_of(creator_payments@);
    let ghost all = payouts(
        *payees,
        seller_payment as nat,
        dues,
        marketplace_fee as nat,
        second_bidder_fee as nat,
    );
    let ghost keep = moving();
    let mut plan: Vec<Transfer> = Vec::new();
    proof {
        reveal(Seq::filter);
        assert(all.take(0) == Seq::<Movement>::empty());
        assert(movements(plan@) == all.take(0).filter(keep));
    }
    let ghost before = plan@;
    if seller_payment > 0 {
        plan.push(
            Transfer {
                from: payees.source,
                to: Holding::Funds { owner: payees.seller },
                amount: seller_payment,
            },
        );
    }
    proof {
        assert(all.take(1) == all.take(0).push(all[0]));
        lemma_filter_push(all.take(0), all[0], keep);
        if seller_payment > 0 {
            assert(movements(plan@) == movements(before).push(all[0]));
        }
    }
    let mut i: usize = 0;
    while i < creator_payments.len()
        invariant
            i <= creator_payments.len(),
            dues == dues_of(creator_payments@),
            all == payouts(
                *payees,
                seller_payment as nat,
                dues,
                marketplace_fee as nat,
                second_bidder_fee as nat,
            ),
            keep == moving(),
            movements(plan@) == all.take(i + 1).filter(keep),
        decreases creator_payments.len() - i,
    {
        let (creator, amount) = creator_payments[i];
        let ghost before = plan@;
        if amount > 0 {
            plan.push(
                Transfer { from: payees.source, to: Holding::Funds { owner: creator }, amount },
            );
        }
        proof {
            assert(all.take(i + 2) == all.take(i + 1).push(all[i + 1]));
            lemma_filter_push(all.take(i + 1), all[i + 1], keep);
            if amount > 0 {
                assert(movements(plan@) == movements(before).push(all[i + 1]));
            }
        }
        i += 1;
    }
    let ghost n = creator_payments.len() as int;
    let ghost before = plan@;
    if marketplace_fee > 0 {
        plan.push(
            Transfer {
                from: payees.source,
                to: Holding::Funds { owner: payees.marketplace },
                amount: marketplace_fee,
            },
        );
    }
    proof {
        assert(all.take(n + 2) == all.take(n + 1).push(all[n + 1]));
        lemma_filter_push(all.take(n + 1), all[n + 1], keep);
        if marketplace_fee > 0 {
            assert(movements(plan@) == movements(before).push(all[n + 1]));
        }
    }
    let ghost before = plan@;
    if second_bidder_fee > 0 {
        plan.push(
            Transfer {
                from: payees.source,
                to: Holding::Funds { owner: payees.second_bidder },
                amount: second_bidder_fee,
            },
        );
    }
    proof {
        assert(all.take(n + 3) == all.take(n + 2).push(all[n + 2]));
        lemma_filter_push(all.take(n + 2), all[n + 2], keep);
        if second_bidder_fee > 0 {
            assert(movements(plan@) == movements(before).push(all[n + 2]));
        }
        assert(all.take(n + 3) == all);
    }
    plan
}

/// The payment tuple of a sale: what each creator, the marketplace, the
/// second-highest bidder and the seller receive of the price.
#[derive(Clone, Debug, PartialEq, Eq)]
pub struct Settlement {
    pub creator_payments: Vec<(Address, u64)>,
    pub marketplace_fee: u64,
    pub rebate_fee: u64,
    pub seller_payment: u64,
}

/// A settlement as specifications see it, the amounts natural numbers.
pub struct SettlementView {
    pub creator_dues: Seq<(Address, nat)>,
    pub marketplace_fee: nat,
    pub rebate_fee: nat,
    pub seller_payment: nat,
}

impl View for Settlement {
    type V = SettlementView;

    open spec fn view(&self) -> SettlementView {
        SettlementView {
            creator_dues: dues_of(self.creator_payments@),
            marketplace_fee: self.marketplace_fee as nat,
            rebate_fee: self.rebate_fee as nat,
            seller_payment: self.seller_payment as nat,
        }
    }
}

impl SettlementView {
    /// What the four components come to.
    pub open spec fn total(self) -> nat {
        total_due(self.creator_dues) + self.marketplace_fee + self.rebate_fee
            + self.seller_payment
    }

    /// The payments that the ledger is asked for.
    pub open spec fn plan(self, payees: Payees) -> Seq<Movement> {
        payment_plan(
            payees,
            self.seller_payment,
            self.creator_dues,
            self.marketplace_fee,
            self.rebate_fee,
        )
    }
}

/// The settlement of a sale at `price`: the royalties of the verified
/// creators, then the split of what they leave. There is none where the
/// royalties come to more than the price.
pub open spec fn settlement(price: nat, creators: Seq<Creator>, second_highest_bid: nat) -> Option<
    SettlementView,
> {
    let left = royalty_remainder(price, creators);
    if left < 0 {
        None
    } else {
        Some(
            SettlementView {
                creator_dues: royalties(price, creators),
                marketplace_fee: marketplace_fee(left as nat, second_highest_bid),
                rebate_fee: rebate_fee(left as nat, second_highest_bid),
                seller_payment: seller_payment(left as nat),
            },
        )
    }
}

/// The components of a settlement come to the price, with nothing left over
/// and nothing counted twice.
pub proof fn lemma_settlement_total(price: nat, creators: Seq<Creator>, second_highest_bid: nat)
    requires
        settlement(price, creators, second_highest_bid) is Some,
    ensures
        settlement(price, creators, second_highest_bid)->Some_0.total() == price,
{
    lemma_fee_bounds(royalty_remainder(price, creators) as nat, second_highest_bid);
}

/// Settles a sale at `price`: computes the royalties of the verified creators
/// and splits what they leave between the marketplace, the second-highest
/// bidder and the seller. Fails with `ArithmeticOverflow` exactly where the
/// royalties come to more than the price.
pub fn settle(price: u64, creators: &Option<Vec<Creator>>, second_highest_bid: u64) -> (r: Result<
    Settlement,
    MarketError,
>)
    ensures
        match r {
            Ok(s) => {
                &&& settlement(price as nat, registry_list(*creators), second_highest_bid as nat)
                    == Some(s@)
                &&& s@.total() == price
            },
            Err(e) => {
                &&& e == MarketError::ArithmeticOverflow
                &&& settlement(price as nat, registry_list(*creators), second_highest_bid as nat)
                    is None
            },
        },
{
    let (creator_payments, remainder) = match calculate_creator_payments(price, creators) {
        Ok(paid) => paid,
        Err(e) => {
            return Err(e);
        },
    };
    let (marketplace_fee, rebate_fee, seller_payment) = match calculate_and_distribute_fee(
        remainder,
        second_highest_bid,
    ) {
        Ok(split) => split,
        Err(e) => {
            return Err(e);
        },
    };
    Ok(Settlement { creator_payments, marketplace_fee, rebate_fee, seller_payment })
}

impl Settlement {
    /// Lists the transfers that pay out this settlement: see
    /// `transfer_payments`.
    pub fn transfers(&self, payees: &Payees) -> (plan: Vec<Transfer>)
        ensures
            movements(plan@) == self@.plan(*payees),
    {
        transfer_payments(
            payees,
            self.seller_payment,
            self.creator_payments.as_slice(),
            self.marketplace_fee,
            self.rebate_fee,
        )
    }
}

} // verus!
