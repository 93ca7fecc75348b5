//! Listings: fixed-price offers to sell units of an asset, the units held in
//! a vault until they are sold or the listing is cancelled.

use vstd::prelude::*;
use crate::address::Address;
use crate::custody::{movements, Holding, Movement, Transfer};
use crate::error::MarketError;
use crate::events::{ListingCancelled, ListingCreated, SaleExecuted};
use crate::plan::{outcome_of, Plan, PlanView, RecordChange};
use crate::royalty::{registry_list, Creator};
use crate::settlement::{settle, settlement, Payees};

verus! {

/// The record of a listing. The seller owns it, and its price never changes;
/// each sale takes one unit off its quantity, and the record is destroyed with
/// the last unit or on cancellation. The expiry is kept as given: nothing here
/// acts on it.
#[derive(Clone, Copy, Debug, PartialEq, Eq)]
pub struct Listing {
    pub seller: Address,
    pub nft_mint: Address,
    pub price: u64,
    pub quantity: u64,
    pub created_at: i64,
    pub expiry: i64,
}

impl Listing {
    /// What holds of every record that this library writes: the price is
    /// positive and at least one unit is left.
    pub open spec fn well_formed(self) -> bool {
        self.price > 0 && self.quantity > 0
    }
}

/// The request to list units of `nft_mint`, made by `seller`; the record will
/// be stored under `listing_id`.
#[derive(Clone, Copy, Debug, PartialEq, Eq)]
pub struct CreateListing {
    pub seller: Address,
    pub nft_mint: Address,
    pub listing_id: Address,
}

/// The request to cancel the listing stored under `listing_id`, made by
/// `seller`; `listing` is the record found there, if any.
#[derive(Clone, Copy, Debug, PartialEq, Eq)]
pub struct CancelListing {
    pub seller: Address,
    pub listing_id: Address,
    pub listing: Option<Listing>,
}

/// The request to buy one unit of the listing stored under `listing_id`, made
/// by `buyer`; `listing` is the record found there, if any, and `creators`
/// what the metadata registry lists for the asset. The marketplace and the
/// second-highest bidder are the parties that the platform fee goes to.
#[derive(Clone, Debug, PartialEq, Eq)]
pub struct ExecuteSale {
    pub buyer: Address,
    pub listing_id: Address,
    pub listing: Option<Listing>,
    pub creators: Option<Vec<Creator>>,
    pub marketplace: Address,
    pub second_bidder: Address,
}

/// The units of `asset` that `owner` holds.
pub open spec fn units_of(owner: Address, asset: Address) -> Holding {
    Holding::Asset { owner, asset }
}

/// The vault of the listing of `asset` by `seller`.
pub open spec fn vault_of(seller: Address, asset: Address) -> Holding {
    Holding::Vault { seller, asset }
}

/// What `create_listing` returns.
pub open spec fn create_listing_outcome(
    ctx: CreateListing,
    price: u64,
    quantity: u64,
    expiry: i64,
    now: i64,
) -> Result<PlanView<Listing, ListingCreated>, MarketError> {
    if price == 0 || quantity == 0 {
        Err(MarketError::ValidationError)
    } else {
        Ok(
            PlanView {
                moves: seq![
                    Movement {
                        from: units_of(ctx.seller, ctx.nft_mint),
                        to: vault_of(ctx.seller, ctx.nft_mint),
                        amount: quantity as nat,
                    },
                ],
                record: RecordChange::Write(
                    Listing {
                        seller: ctx.seller,
                        nft_mint: ctx.nft_mint,
                        price,
                        quantity,
                        created_at: now,
                        expiry,
                    },
                ),
                event: ListingCreated {
                    listing_id: ctx.listing_id,
                    seller: ctx.seller,
                    nft_mint: ctx.nft_mint,
                    price,
                    quantity,
                    expiry,
                },
            },
        )
    }
}

/// What `cancel_listing` returns.
pub open spec fn cancel_listing_outcome(ctx: CancelListing) -> Result<
    PlanView<Listing, ListingCancelled>,
    MarketError,
> {
    match ctx.listing {
        None => Err(MarketError::NotFound),
        Some(listing) => if ctx.seller != listing.seller {
            Err(MarketError::Unauthorized)
        } else {
            Ok(
                PlanView {
                    moves: seq![
                        Movement {
                            from: vault_of(listing.seller, listing.nft_mint),
                            to: units_of(listing.seller, listing.nft_mint),
                            amount: listing.quantity as nat,
                        },
                    ],
                    record: RecordChange::Close { refund_to: listing.seller },
                    event: ListingCancelled {
                        listing_id: ctx.listing_id,
                        seller: listing.seller,
                        nft_mint: listing.nft_mint,
                    },
                },
            )
        },
    }
}

/// Who is paid what from where when a unit of `listing` is sold to
/// `ctx.buyer`.
pub open spec fn sale_payees(ctx: ExecuteSale, listing: Listing) -> Payees {
    Payees {
        source: Holding::Funds { owner: ctx.buyer },
        seller: listing.seller,
        marketplace: ctx.marketplace,
        second_bidder: ctx.second_bidder,
    }
}

/// The record of `listing` after one of its units was sold.
pub open spec fn after_sale(listing: Listing) -> RecordChange<Listing> {
    if listing.quantity == 1 {
        RecordChange::Close { refund_to: listing.seller }
    } else {
        RecordChange::Write(Listing { quantity: (listing.quantity - 1) as u64, ..listing })
    }
}

/// What `execute_sale` returns.
pub open spec fn execute_sale_outcome(ctx: ExecuteSale, second_highest_bid: u64) -> Result<
    PlanView<Listing, SaleExecuted>,
    MarketError,
> {
    match ctx.listing {
        None => Err(MarketError::NotFound),
        Some(listing) => if listing.quantity == 0 {
            Err(MarketError::ValidationError)
        } else {
            match settlement(
                listing.price as nat,
                registry_list(ctx.creators),
                second_highest_bid as nat,
            ) {
                None => Err(MarketError::ArithmeticOverflow),
                Some(paid) => Ok(
                    PlanView {
                        moves: paid.plan(sale_payees(ctx, listing)).push(
                            Movement {
                                from: vault_of(listing.seller, listing.nft_mint),
                                to: units_of(ctx.buyer, listing.nft_mint),
                                amount: 1,
                            },
                        ),
                        record: after_sale(listing),
                        event: SaleExecuted {
                            listing_id: ctx.listing_id,
                            buyer: ctx.buyer,
                            seller: listing.seller,
                            nft_mint: listing.nft_mint,
                            price: listing.price,
                        },
                    },
                ),
            }
        },
    }
}

/// Lists `quantity` units of `ctx.nft_mint` at `price` each, at the time `now`.
///
/// Fails with `ValidationError` exactly where the price or the quantity is
/// zero. Otherwise the plan moves the units from the seller into the vault of
/// the listing, stores the record and announces it.
pub fn create_listing(ctx: &CreateListing, price: u64, quantity: u64, expiry: i64, now: i64) -> (r:
    Result<Plan<Listing, ListingCreated>, MarketError>)
    ensures
        outcome_of(r) == create_listing_outcome(*ctx, price, quantity, expiry, now),
        r is Err <==> price == 0 || quantity == 0,
{
    if price == 0 || quantity == 0 {
        return Err(MarketError::ValidationError);
    }
    let mut transfers: Vec<Transfer> = Vec::new();
    transfers.push(
        Transfer {
            from: Holding::Asset { owner: ctx.seller, asset: ctx.nft_mint },
            to: Holding::Vault { seller: ctx.seller, asset: ctx.nft_mint },
            amount: quantity,
        },
    );
    let plan = Plan {
        transfers,
        record: RecordChange::Write(
            Listing {
                seller: ctx.seller,
                nft_mint: ctx.nft_mint,
                price,
                quantity,
                created_at: now,
                expiry,
            },
        ),
        event: ListingCreated {
            listing_id: ctx.listing_id,
            seller: ctx.seller,
            nft_mint: ctx.nft_mint,
            price,
            quantity,
            expiry,
        },
    };
    assert(plan@.moves == create_listing_outcome(*ctx, price, quantity, expiry, now)->Ok_0.moves);
    Ok(plan)
}

/// Cancels a listing on behalf of `ctx.seller`.
///
/// Fails with `NotFound` where there is no record, and with `Unauthorized`
/// where the caller is not the seller of the record. Otherwise the plan moves
/// every remaining unit from the vault back to the seller, destroys the record
/// and releases its reserve to the seller.
pub fn cancel_listing(ctx: &CancelListing) -> (r: Result<
    Plan<Listing, ListingCancelled>,
    MarketError,
>)
    ensures
        outcome_of(r) == cancel_listing_outcome(*ctx),
        r == Err::<Plan<Listing, ListingCancelled>, MarketError>(MarketError::NotFound)
            <==> ctx.listing is None,
        r == Err::<Plan<Listing, ListingCancelled>, MarketError>(MarketError::Unauthorized)
            <==> ctx.listing is Some && ctx.listing->Some_0.seller != ctx.seller,
{
    let listing = match ctx.listing {
        Some(listing) => listing,
        None => {
            return Err(MarketError::NotFound);
        },
    };
    if ctx.seller != listing.seller {
        return Err(MarketError::Unauthorized);
    }
    let mut transfers: Vec<Transfer> = Vec::new();
    transfers.push(
        Transfer {
            from: Holding::Vault { seller: listing.seller, asset: listing.nft_mint },
            to: Holding::Asset { owner: listing.seller, asset: listing.nft_mint },
            amount: listing.quantity,
        },
    );
    let plan = Plan {
        transfers,
        record: RecordChange::Close { refund_to: listing.seller },
        event: ListingCancelled {
            listing_id: ctx.listing_id,
            seller: listing.seller,
            nft_mint: listing.nft_mint,
        },
    };
    assert(plan@.moves == cancel_listing_outcome(*ctx)->Ok_0.moves);
    Ok(plan)
}

/// Sells one unit of a listing to `ctx.buyer`.
///
/// Fails with `NotFound` where there is no record, with `ValidationError`
/// where the record has no unit left, and with `ArithmeticOverflow` where the
/// royalties on the price come to more than the price. Otherwise the plan pays
/// out the settlement of the price from the buyer's funds, then moves one unit
/// from the vault to the buyer. A record with one unit is destroyed and its
/// reserve released to the seller; a record with more keeps every field but
/// the quantity, which goes down by one.
///
/// `second_highest_bid` is taken on the caller's word: nothing here holds it
/// against the bids that exist.
pub fn execute_sale(ctx: &ExecuteSale, second_highest_bid: u64) -> (r: Result<
    Plan<Listing, SaleExecuted>,
    MarketError,
>)
    ensures
        outcome_of(r) == execute_sale_outcome(*ctx, second_highest_bid),
        r matches Ok(plan) ==> {
            let listing = ctx.listing->Some_0;
            &&& ctx.listing is Some
            &&& listing.quantity == 1 ==> plan.record == (RecordChange::<Listing>::Close {
                refund_to: listing.seller,
            })
            &&& listing.quantity > 1 ==> plan.record == RecordChange::Write(
                Listing { quantity: (listing.quantity - 1) as u64, ..listing },
            )
        },
{
    let listing = match ctx.listing {
        Some(listing) => listing,
        None => {
            return Err(MarketError::NotFound);
        },
    };
    if listing.quantity == 0 {
        return Err(MarketError::ValidationError);
    }
    let paid = match settle(listing.price, &ctx.creators, second_highest_bid) {
        Ok(paid) => paid,
        Err(e) => {
            return Err(e);
        },
    };
    let payees = Payees {
        source: Holding::Funds { owner: ctx.buyer },
        seller: listing.seller,
        marketplace: ctx.marketplace,
        second_bidder: ctx.second_bidder,
    };
    let mut transfers = paid.transfers(&payees);
    let ghost payments = transfers@;
    let delivery = Transfer {
        from: Holding::Vault { seller: listing.seller, asset: listing.nft_mint },
        to: Holding::Asset { owner: ctx.buyer, asset: listing.nft_mint },
        amount: 1,
    };
    transfers.push(delivery);
    assert(movements(transfers@) == movements(payments).push(delivery@));
    let record = if listing.quantity == 1 {
        RecordChange::Close { refund_to: listing.seller }
    } else {
        RecordChange::Write(Listing { quantity: listing.quantity - 1, ..listing })
    };
    Ok(
        Plan {
            transfers,
            record,
            event: SaleExecuted {
                listing_id: ctx.listing_id,
                buyer: ctx.buyer,
                seller: listing.seller,
                nft_mint: listing.nft_mint,
                price: listing.price,
            },
        },
    )
}

} // verus!
