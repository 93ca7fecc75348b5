use flyp_marketplace::{
    accept_bid, cancel_bid, place_bid, AcceptBid, Address, Bid, BidAccepted, BidCancelled,
    BidPlaced, CancelBid, Creator, Holding, LedgerError, MarketError, PlaceBid, RecordChange,
    Transfer,
};

fn who(tag: u8) -> Address {
    Address { bytes: [tag; 32] }
}

const BIDDER: u8 = 11;
const OWNER: u8 = 12;
const ASSET: u8 = 13;
const SLOT: u8 = 14;
const HOUSE: u8 = 15;
const RUNNER_UP: u8 = 16;
const PAINTER: u8 = 17;

fn escrow() -> Holding {
    Holding::Escrow { bidder: who(BIDDER), asset: who(ASSET) }
}

fn purse(owner: u8) -> Holding {
    Holding::Funds { owner: who(owner) }
}

fn bid(price: u64) -> Bid {
    Bid { bidder: who(BIDDER), nft_mint: who(ASSET), price, created_at: 10, expiry: 20 }
}

fn offer() -> PlaceBid {
    PlaceBid { bidder: who(BIDDER), nft_mint: who(ASSET), bid_id: who(SLOT) }
}

fn acceptance(record: Option<Bid>, creators: Option<Vec<Creator>>) -> AcceptBid {
    AcceptBid {
        seller: who(OWNER),
        bid_id: who(SLOT),
        bid: record,
        creators,
        marketplace: who(HOUSE),
        second_bidder: who(RUNNER_UP),
    }
}

#[test]
fn place_bid_escrows_the_price() {
    let plan = place_bid(&offer(), 1000, 20, 10).unwrap();
    assert_eq!(plan.transfers, vec![Transfer { from: purse(BIDDER), to: escrow(), amount: 1000 }]);
    assert_eq!(plan.record, RecordChange::Write(bid(1000)));
    assert_eq!(
        plan.event,
        BidPlaced {
            bid_id: who(SLOT),
            bidder: who(BIDDER),
            nft_mint: who(ASSET),
            price: 1000,
            expiry: 20,
        }
    );
}

#[test]
fn place_bid_rejects_a_zero_price() {
    assert_eq!(place_bid(&offer(), 0, 20, 10), Err(MarketError::ValidationError));
}

#[test]
fn place_bid_takes_the_largest_price() {
    let plan = place_bid(&offer(), u64::MAX, 0, 0).unwrap();
    assert_eq!(plan.transfers[0].amount, u64::MAX);
}

#[test]
fn cancel_bid_returns_the_price() {
    let ctx = CancelBid { bidder: who(BIDDER), bid_id: who(SLOT), bid: Some(bid(1000)) };
    let plan = cancel_bid(&ctx).unwrap();
    assert_eq!(plan.transfers, vec![Transfer { from: escrow(), to: purse(BIDDER), amount: 1000 }]);
    assert_eq!(plan.record, RecordChange::Close { refund_to: who(BIDDER) });
    assert_eq!(
        plan.event,
        BidCancelled { bid_id: who(SLOT), bidder: who(BIDDER), nft_mint: who(ASSET) }
    );
}

#[test]
fn cancel_bid_by_a_stranger_is_unauthorized() {
    let ctx = CancelBid { bidder: who(OWNER), bid_id: who(SLOT), bid: Some(bid(1000)) };
    assert_eq!(cancel_bid(&ctx), Err(MarketError::Unauthorized));
}

#[test]
fn cancel_bid_without_a_record_is_not_found() {
    let ctx = CancelBid { bidder: who(BIDDER), bid_id: who(SLOT), bid: None };
    assert_eq!(cancel_bid(&ctx), Err(MarketError::NotFound));
}

#[test]
fn place_then_cancel_is_a_round_trip() {
    let placed = place_bid(&offer(), 1000, 20, 10).unwrap();
    let mut slot: Option<Bid> = None;
    let there = placed.transfers.clone();
    placed.commit(&mut slot, Ok(())).unwrap();
    assert_eq!(slot, Some(bid(1000)));
    let ctx = CancelBid { bidder: who(BIDDER), bid_id: who(SLOT), bid: slot };
    let cancelled = cancel_bid(&ctx).unwrap();
    assert_eq!(cancelled.transfers.len(), 1);
    assert_eq!(cancelled.transfers[0].from, there[0].to);
    assert_eq!(cancelled.transfers[0].to, there[0].from);
    assert_eq!(cancelled.transfers[0].amount, there[0].amount);
    cancelled.commit(&mut slot, Ok(())).unwrap();
    assert_eq!(slot, None);
}

#[test]
fn accept_bid_pays_from_the_escrow_and_delivers_the_unit() {
    let creators = Some(vec![Creator { address: who(PAINTER), verified: true, share: 10 }]);
    let plan = accept_bid(&acceptance(Some(bid(1000)), creators), 5).unwrap();
    assert_eq!(
        plan.transfers,
        vec![
            Transfer { from: escrow(), to: purse(OWNER), amount: 878 },
            Transfer { from: escrow(), to: purse(PAINTER), amount: 100 },
            Transfer { from: escrow(), to: purse(HOUSE), amount: 20 },
            Transfer { from: escrow(), to: purse(RUNNER_UP), amount: 2 },
            Transfer {
                from: Holding::Asset { owner: who(OWNER), asset: who(ASSET) },
                to: Holding::Asset { owner: who(BIDDER), asset: who(ASSET) },
                amount: 1,
            },
        ]
    );
    assert_eq!(plan.record, RecordChange::Close { refund_to: who(OWNER) });
    assert_eq!(
        plan.event,
        BidAccepted {
            bid_id: who(SLOT),
            seller: who(OWNER),
            bidder: who(BIDDER),
            nft_mint: who(ASSET),
            price: 1000,
        }
    );
}

#[test]
fn accept_bid_drains_the_escrow_exactly() {
    let creators = Some(vec![
        Creator { address: who(PAINTER), verified: true, share: 7 },
        Creator { address: who(HOUSE), verified: true, share: 3 },
    ]);
    for price in [1u64, 999, 1000, 123456789, u64::MAX] {
        let plan = accept_bid(&acceptance(Some(bid(price)), creators.clone()), 50).unwrap();
        let paid: u128 = plan
            .transfers
            .iter()
            .filter(|t| t.from == escrow())
            .map(|t| t.amount as u128)
            .sum();
        assert_eq!(paid, price as u128);
    }
}

#[test]
fn accept_bid_without_a_record_is_not_found() {
    assert_eq!(accept_bid(&acceptance(None, None), 0), Err(MarketError::NotFound));
}

#[test]
fn accept_bid_with_royalties_above_the_price_overflows() {
    let creators = Some(vec![
        Creator { address: who(PAINTER), verified: true, share: 100 },
        Creator { address: who(HOUSE), verified: true, share: 1 },
    ]);
    assert_eq!(
        accept_bid(&acceptance(Some(bid(1000)), creators), 0),
        Err(MarketError::ArithmeticOverflow)
    );
}

#[test]
fn accept_bid_destroys_the_record_once_the_ledger_is_through() {
    let plan = accept_bid(&acceptance(Some(bid(1000)), None), 0).unwrap();
    let mut slot = Some(bid(1000));
    assert_eq!(plan.commit(&mut slot, Ok(())).map(|e| e.bidder), Ok(who(BIDDER)));
    assert_eq!(slot, None);
}

#[test]
fn accept_bid_by_a_seller_without_the_unit_fails_in_custody() {
    let plan = accept_bid(&acceptance(Some(bid(1000)), None), 0).unwrap();
    let mut slot = Some(bid(1000));
    assert_eq!(
        plan.commit(&mut slot, Err(LedgerError::InsufficientFunds)),
        Err(MarketError::CustodyTransferFailed(LedgerError::InsufficientFunds))
    );
    assert_eq!(slot, Some(bid(1000)));
}
