//! Bids: offers to buy one unit of an asset at a stated price, the price held
//! in escrow until the bid is accepted or cancelled.

use vstd::prelude::*;
use crate::address::Address;
use crate::custody::{movements, Holding, Movement, Transfer};
use crate::error::MarketError;
use crate::events::{BidAccepted, BidCancelled, BidPlaced};
use crate::plan::{outcome_of, Plan, PlanView, RecordChange};
use crate::royalty::{registry_list, Creator};
use crate::settlement::{settle, settlement, Payees};

verus! {

/// The record of a bid. The bidder owns it; for as long as it exists, the
/// escrow of the bid contains its price. The expiry is kept as given: nothing
/// here acts on it.
#[derive(Clone, Copy, Debug, PartialEq, Eq)]
pub struct Bid {
    pub bidder: Address,
    pub nft_mint: Address,
    pub price: u64,
    pub created_at: i64,
    pub expiry: i64,
}

impl Bid {
    /// What holds of every record that this library writes: the price is
    /// positive.
    pub open spec fn well_formed(self) -> bool {
        self.price > 0
    }
}

/// The request to bid for a unit of `nft_mint`, made by `bidder`; the record
/// will be stored under `bid_id`.
#[derive(Clone, Copy, Debug, PartialEq, Eq)]
pub struct PlaceBid {
    pub bidder: Address,
    pub nft_mint: Address,
    pub bid_id: Address,
}

/// The request to cancel the bid stored under `bid_id`, made by `bidder`;
/// `bid` is the record found there, if any.
#[derive(Clone, Copy, Debug, PartialEq, Eq)]
pub struct CancelBid {
    pub bidder: Address,
    pub bid_id: Address,
    pub bid: Option<Bid>,
}

/// The request to accept the bid stored under `bid_id`, made by `seller`, who
/// gives up one unit of the asset; `bid` is the record found there, if any,
/// and `creators` what the metadata registry lists for the asset. The
/// marketplace and the second-highest bidder are the parties that the platform
/// fee goes to.
#[derive(Clone, Debug, PartialEq, Eq)]
pub struct AcceptBid {
    pub seller: Address,
    pub bid_id: Address,
    pub bid: Option<Bid>,
    pub creators: Option<Vec<Creator>>,
    pub marketplace: Address,
    pub second_bidder: Address,
}

/// The funds that `owner` holds.
pub open spec fn funds_of(owner: Address) -> Holding {
    Holding::Funds { owner }
}

/// The escrow of the bid for `asset` by `bidder`.
pub open spec fn escrow_of(bidder: Address, asset: Address) -> Holding {
    Holding::Escrow { bidder, asset }
}

/// What `place_bid` returns.
pub open spec fn place_bid_outcome(ctx: PlaceBid, price: u64, expiry: i64, now: i64) -> Result<
    PlanView<Bid, BidPlaced>,
    MarketError,
> {
    if price == 0 {
        Err(MarketError::ValidationError)
    } else {
        Ok(
            PlanView {
                moves: seq![
                    Movement {
                        from: funds_of(ctx.bidder),
                        to: escrow_of(ctx.bidder, ctx.nft_mint),
                        amount: price as nat,
                    },
                ],
                record: RecordChange::Write(
                    Bid {
                        bidder: ctx.bidder,
                        nft_mint: ctx.nft_mint,
                        price,
                        created_at: now,
                        expiry,
                    },
                ),
                event: BidPlaced {
                    bid_id: ctx.bid_id,
                    bidder: ctx.bidder,
                    nft_mint: ctx.nft_mint,
                    price,
                    expiry,
                },
            },
        )
    }
}

/// What `cancel_bid` returns.
pub open spec fn cancel_bid_outcome(ctx: CancelBid) -> Result<
    PlanView<Bid, BidCancelled>,
    MarketError,
> {
    match ctx.bid {
        None => Err(MarketError::NotFound),
        Some(bid) => if ctx.bidder != bid.bidder {
            Err(MarketError::Unauthorized)
        } else {
            Ok(
                PlanView {
                    moves: seq![
                        Movement {
                            from: escrow_of(bid.bidder, bid.nft_mint),
                            to: funds_of(bid.bidder),
                            amount: bid.price as nat,
                        },
                    ],
                    record: RecordChange::Close { refund_to: bid.bidder },
                    event: BidCancelled {
                        bid_id: ctx.bid_id,
                        bidder: bid.bidder,
                        nft_mint: bid.nft_mint,
                    },
                },
            )
        },
    }
}

/// Who is paid what from where when `bid` is accepted by `ctx.seller`.
pub open spec fn acceptance_payees(ctx: AcceptBid, bid: Bid) -> Payees {
    Payees {
        source: escrow_of(bid.bidder, bid.nft_mint),
        seller: ctx.seller,
        marketplace: ctx.marketplace,
        second_bidder: ctx.second_bidder,
    }
}

/// What `accept_bid` returns.
pub open spec fn accept_bid_outcome(ctx: AcceptBid, second_highest_bid: u64) -> Result<
    PlanView<Bid, BidAccepted>,
    MarketError,
> {
    match ctx.bid {
        None => Err(MarketError::NotFound),
        Some(bid) => match settlement(
            bid.price as nat,
            registry_list(ctx.creators),
            second_highest_bid as nat,
        ) {
            None => Err(MarketError::ArithmeticOverflow),
            Some(paid) => Ok(
                PlanView {
                    moves: paid.plan(acceptance_payees(ctx, bid)).push(
                        Movement {
                            from: Holding::Asset { owner: ctx.seller, asset: bid.nft_mint },
                            to: Holding::Asset { owner: bid.bidder, asset: bid.nft_mint },
                            amount: 1,
                        },
                    ),
                    record: RecordChange::Close { refund_to: ctx.seller },
                    event: BidAccepted {
                        bid_id: ctx.bid_id,
                        seller: ctx.seller,
                        bidder: bid.bidder,
                        nft_mint: bid.nft_mint,
                        price: bid.price,
                    },
                },
            ),
        },
    }
}

/// Bids `price` for one unit of `ctx.nft_mint`, at the time `now`.
///
/// Fails with `ValidationError` exactly where the price is zero. Otherwise the
/// plan moves the price from the bidder's funds into the escrow of the bid,
/// stores the record and announces it.
pub fn place_bid(ctx: &PlaceBid, price: u64, expiry: i64, now: i64) -> (r: Result<
    Plan<Bid, BidPlaced>,
    MarketError,
>)
    ensures
        outcome_of(r) == place_bid_outcome(*ctx, price, expiry, now),
        r is Err <==> price == 0,
{
    if price == 0 {
        return Err(MarketError::ValidationError);
    }
    let mut transfers: Vec<Transfer> = Vec::new();
    transfers.push(
        Transfer {
            from: Holding::Funds { owner: ctx.bidder },
            to: Holding::Escrow { bidder: ctx.bidder, asset: ctx.nft_mint },
            amount: price,
        },
    );
    let plan = Plan {
        transfers,
        record: RecordChange::Write(
            Bid { bidder: ctx.bidder, nft_mint: ctx.nft_mint, price, created_at: now, expiry },
        ),
        event: BidPlaced {
            bid_id: ctx.bid_id,
            bidder: ctx.bidder,
            nft_mint: ctx.nft_mint,
            price,
            expiry,
        },
    };
    assert(plan@.moves == place_bid_outcome(*ctx, price, expiry, now)->Ok_0.moves);
    Ok(plan)
}

/// Cancels a bid on behalf of `ctx.bidder`.
///
/// Fails with `NotFound` where there is no record, and with `Unauthorized`
/// where the caller is not the bidder of the record. Otherwise the plan moves
/// the whole price from the escrow back to the bidder, destroys the record and
/// releases its reserve to the bidder.
pub fn cancel_bid(ctx: &CancelBid) -> (r: Result<Plan<Bid, BidCancelled>, MarketError>)
    ensures
        outcome_of(r) == cancel_bid_outcome(*ctx),
        r == Err::<Plan<Bid, BidCancelled>, MarketError>(MarketError::NotFound)
            <==> ctx.bid is None,
        r == Err::<Plan<Bid, BidCancelled>, MarketError>(MarketError::Unauthorized)
            <==> ctx.bid is Some && ctx.bid->Some_0.bidder != ctx.bidder,
{
    let bid = match ctx.bid {
        Some(bid) => bid,
        None => {
            return Err(MarketError::NotFound);
        },
    };
    if ctx.bidder != bid.bidder {
        return Err(MarketError::Unauthorized);
    }
    let mut transfers: Vec<Transfer> = Vec::new();
    transfers.push(
        Transfer {
            from: Holding::Escrow { bidder: bid.bidder, asset: bid.nft_mint },
            to: Holding::Funds { owner: bid.bidder },
            amount: bid.price,
        },
    );
    let plan = Plan {
        transfers,
        record: RecordChange::Close { refund_to: bid.bidder },
        event: BidCancelled { bid_id: ctx.bid_id, bidder: bid.bidder, nft_mint: bid.nft_mint },
    };
    assert(plan@.moves == cancel_bid_outcome(*ctx)->Ok_0.moves);
    Ok(plan)
}

/// Accepts a bid on behalf of `ctx.seller`, who gives up one unit of the asset.
///
/// Fails with `NotFound` where there is no record, and with
/// `ArithmeticOverflow` where the royalties on the price come to more than the
/// price. Otherwise the plan pays out the settlement of the price from the
/// escrow of the bid, then moves one unit from the seller to the bidder,
/// destroys the record and releases its reserve to the seller. Whether the
/// seller holds the unit is for the ledger to say: it refuses the plan where
/// the seller does not.
///
/// `second_highest_bid` is taken on the caller's word: nothing here holds it
/// against the bids that exist.
pub fn accept_bid(ctx: &AcceptBid, second_highest_bid: u64) -> (r: Result<
    Plan<Bid, BidAccepted>,
    MarketError,
>)
    ensures
        outcome_of(r) == accept_bid_outcome(*ctx, second_highest_bid),
{
    let bid = match ctx.bid {
        Some(bid) => bid,
        None => {
            return Err(MarketError::NotFound);
        },
    };
    let paid = match settle(bid.price, &ctx.creators, second_highest_bid) {
        Ok(paid) => paid,
        Err(e) => {
            return Err(e);
        },
    };
    let payees = Payees {
        source: Holding::Escrow { bidder: bid.bidder, asset: bid.nft_mint },
        seller: ctx.seller,
        marketplace: ctx.marketplace,
        second_bidder: ctx.second_bidder,
    };
    let mut transfers = paid.transfers(&payees);
    let ghost payments = transfers@;
    let delivery = Transfer {
        from: Holding::Asset { owner: ctx.seller, asset: bid.nft_mint },
        to: Holding::Asset { owner: bid.bidder, asset: bid.nft_mint },
        amount: 1,
    };
    transfers.push(delivery);
    assert(movements(transfers@) == movements(payments).push(delivery@));
    Ok(
        Plan {
            transfers,
            record: RecordChange::Close { refund_to: ctx.seller },
            event: BidAccepted {
                bid_id: ctx.bid_id,
                seller: ctx.seller,
                bidder: bid.bidder,
                nft_mint: bid.nft_mint,
                price: bid.price,
            },
        },
    )
}

} // verus!
