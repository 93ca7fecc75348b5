//! A marketplace settlement engine: escrow-backed listings and bids for units
//! of a unique asset, and the exact split of a sale price among creators, the
//! marketplace, the outbid party and the seller.
//!
//! An operation here moves nothing itself. It checks a request and answers
//! with a [`Plan`]: the transfers that the custody ledger is to carry out as
//! one unit, what then becomes of the record, and the event to emit. Once the
//! ledger has answered, [`Plan::commit`] concludes the operation.

pub mod address;
pub mod arith;
pub mod bid;
pub mod custody;
pub mod error;
pub mod events;
pub mod fee;
pub mod laws;
pub mod listing;
pub mod plan;
pub mod royalty;
pub mod settlement;

pub use address::Address;
pub use arith::mul_div;
pub use bid::{accept_bid, cancel_bid, place_bid, AcceptBid, Bid, CancelBid, PlaceBid};
pub use custody::{Holding, Transfer};
pub use error::{LedgerError, MarketError};
pub use events::{
    BidAccepted, BidCancelled, BidPlaced, ListingCancelled, ListingCreated, SaleExecuted,
};
pub use fee::{
    calculate_and_distribute_fee, FEE_DENOMINATOR, MARKETPLACE_FEE_SHARE, PLATFORM_FEE_BPS,
    SECOND_BIDDER_FEE_SHARE,
};
pub use listing::{
    cancel_listing, create_listing, execute_sale, CancelListing, CreateListing, ExecuteSale,
    Listing,
};
pub use plan::{Plan, RecordChange};
pub use royalty::{calculate_creator_payments, Creator, SHARE_DENOMINATOR};
pub use settlement::{settle, transfer_payments, Payees, Settlement};
