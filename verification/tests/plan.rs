use flyp_marketplace::{
    Address, Bid, Holding, LedgerError, Listing, ListingCancelled, ListingCreated, MarketError,
    Plan, RecordChange, Transfer,
};

fn key(tag: u8) -> Address {
    Address { bytes: [tag; 32] }
}

fn record(quantity: u64) -> Listing {
    Listing {
        seller: key(1),
        nft_mint: key(2),
        price: 50,
        quantity,
        created_at: 3,
        expiry: 4,
    }
}

fn announced() -> ListingCreated {
    ListingCreated {
        listing_id: key(9),
        seller: key(1),
        nft_mint: key(2),
        price: 50,
        quantity: 6,
        expiry: 4,
    }
}

fn storing() -> Plan<Listing, ListingCreated> {
    Plan {
        transfers: vec![Transfer {
            from: Holding::Asset { owner: key(1), asset: key(2) },
            to: Holding::Vault { seller: key(1), asset: key(2) },
            amount: 6,
        }],
        record: RecordChange::Write(record(6)),
        event: announced(),
    }
}

fn closing() -> Plan<Listing, ListingCancelled> {
    Plan {
        transfers: Vec::new(),
        record: RecordChange::Close { refund_to: key(1) },
        event: ListingCancelled { listing_id: key(9), seller: key(1), nft_mint: key(2) },
    }
}

#[test]
fn addresses_are_equal_byte_by_byte() {
    assert_eq!(key(7), key(7));
    assert_ne!(key(7), key(8));
    for i in 0..32 {
        let mut other = key(7);
        other.bytes[i] ^= 1;
        assert!(other != key(7));
        assert!(!(other == key(7)));
    }
    assert!(key(0) == Address { bytes: [0; 32] });
}

#[test]
fn commit_stores_the_record_once_the_ledger_is_through() {
    let mut slot: Option<Listing> = None;
    assert_eq!(storing().commit(&mut slot, Ok(())), Ok(announced()));
    assert_eq!(slot, Some(record(6)));
}

#[test]
fn commit_overwrites_an_older_record() {
    let mut slot = Some(record(7));
    assert_eq!(storing().commit(&mut slot, Ok(())), Ok(announced()));
    assert_eq!(slot, Some(record(6)));
}

#[test]
fn commit_destroys_the_record_of_a_closing_plan() {
    let mut slot = Some(record(6));
    let event = closing().commit(&mut slot, Ok(())).unwrap();
    assert_eq!(event.listing_id, key(9));
    assert_eq!(slot, None);
}

#[test]
fn commit_after_a_refusal_wraps_the_reason() {
    let mut slot: Option<Listing> = None;
    assert_eq!(
        storing().commit(&mut slot, Err(LedgerError::InsufficientFunds)),
        Err(MarketError::CustodyTransferFailed(LedgerError::InsufficientFunds))
    );
    assert_eq!(slot, None);
    assert_eq!(
        storing().commit(&mut slot, Err(LedgerError::AccountNotFound)),
        Err(MarketError::CustodyTransferFailed(LedgerError::AccountNotFound))
    );
    assert_eq!(slot, None);
}

#[test]
fn commit_after_a_refusal_keeps_the_record() {
    let mut slot = Some(record(6));
    assert_eq!(
        closing().commit(&mut slot, Err(LedgerError::AccountNotFound)),
        Err(MarketError::CustodyTransferFailed(LedgerError::AccountNotFound))
    );
    assert_eq!(slot, Some(record(6)));
    let mut other = Some(record(9));
    assert!(storing().commit(&mut other, Err(LedgerError::InsufficientFunds)).is_err());
    assert_eq!(other, Some(record(9)));
}

#[test]
fn commit_serves_any_record_type() {
    let bid = Bid { bidder: key(5), nft_mint: key(2), price: 10, created_at: 0, expiry: 0 };
    let plan: Plan<Bid, u8> =
        Plan { transfers: Vec::new(), record: RecordChange::Write(bid), event: 42 };
    let mut slot = None;
    assert_eq!(plan.commit(&mut slot, Ok(())), Ok(42));
    assert_eq!(slot, Some(bid));
}
