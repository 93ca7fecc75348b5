//! The notifications of lifecycle transitions: one for each operation that
//! went through.

use vstd::prelude::*;
use crate::address::Address;

verus! {

/// A listing was created and its units are in the vault.
#[derive(Clone, Copy, Debug, PartialEq, Eq)]
pub struct ListingCreated {
    pub listing_id: Address,
    pub seller: Address,
    pub nft_mint: Address,
    pub price: u64,
    pub quantity: u64,
    pub expiry: i64,
}

/// A listing was cancelled and its units are back with the seller.
#[derive(Clone, Copy, Debug, PartialEq, Eq)]
pub struct ListingCancelled {
    pub listing_id: Address,
    pub seller: Address,
    pub nft_mint: Address,
}

/// One unit of a listing was sold.
#[derive(Clone, Copy, Debug, PartialEq, Eq)]
pub struct SaleExecuted {
    pub listing_id: Address,
    pub buyer: Address,
    pub seller: Address,
    pub nft_mint: Address,
    pub price: u64,
}

/// A bid was placed and its price is in escrow.
#[derive(Clone, Copy, Debug, PartialEq, Eq)]
pub struct BidPlaced {
    pub bid_id: Address,
    pub bidder: Address,
    pub nft_mint: Address,
    pub price: u64,
    pub expiry: i64,
}

/// A bid was cancelled and its price is back with the bidder.
#[derive(Clone, Copy, Debug, PartialEq, Eq)]
pub struct BidCancelled {
    pub bid_id: Address,
    pub bidder: Address,
    pub nft_mint: Address,
}

/// A bid was accepted: the unit went to the bidder, the price was paid out.
#[derive(Clone, Copy, Debug, PartialEq, Eq)]
pub struct BidAccepted {
    pub bid_id: Address,
    pub seller: Address,
    pub bidder: Address,
    pub nft_mint: Address,
    pub price: u64,
}

} // verus!
