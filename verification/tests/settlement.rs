use flyp_marketplace::{
    calculate_and_distribute_fee, calculate_creator_payments, mul_div, settle, transfer_payments,
    Address, Creator, Holding, MarketError, Payees, Settlement, Transfer, FEE_DENOMINATOR,
    MARKETPLACE_FEE_SHARE, PLATFORM_FEE_BPS, SECOND_BIDDER_FEE_SHARE, SHARE_DENOMINATOR,
};

fn party(tag: u8) -> Address {
    Address { bytes: [tag; 32] }
}

fn creator(tag: u8, verified: bool, share: u8) -> Creator {
    Creator { address: party(tag), verified, share }
}

fn funds(tag: u8) -> Holding {
    Holding::Funds { owner: party(tag) }
}

fn payees() -> Payees {
    Payees { source: funds(1), seller: party(2), marketplace: party(3), second_bidder: party(4) }
}

#[test]
fn constants_are_basis_points_and_percent() {
    assert_eq!(FEE_DENOMINATOR, 10000);
    assert_eq!(PLATFORM_FEE_BPS, 250);
    assert_eq!(MARKETPLACE_FEE_SHARE, 9000);
    assert_eq!(SECOND_BIDDER_FEE_SHARE, 1000);
    assert_eq!(SHARE_DENOMINATOR, 100);
}

#[test]
fn mul_div_rounds_down() {
    assert_eq!(mul_div(900, 250, 10000), Ok(22));
    assert_eq!(mul_div(22, 1000, 10000), Ok(2));
    assert_eq!(mul_div(999, 10, 100), Ok(99));
    assert_eq!(mul_div(0, 250, 10000), Ok(0));
}

#[test]
fn mul_div_forms_the_product_in_128_bits() {
    assert_eq!(mul_div(u64::MAX, 100, 100), Ok(u64::MAX));
    assert_eq!(mul_div(u64::MAX, u64::MAX, u64::MAX), Ok(u64::MAX));
    assert_eq!(mul_div(u64::MAX, 250, 10000), Ok(461168601842738790));
}

#[test]
fn mul_div_fails_where_the_quotient_does_not_fit() {
    assert_eq!(mul_div(u64::MAX, 101, 100), Err(MarketError::ArithmeticOverflow));
    assert_eq!(mul_div(u64::MAX, 2, 1), Err(MarketError::ArithmeticOverflow));
}

#[test]
fn mul_div_fails_on_a_zero_denominator() {
    assert_eq!(mul_div(1, 1, 0), Err(MarketError::ArithmeticOverflow));
    assert_eq!(mul_div(0, 0, 0), Err(MarketError::ArithmeticOverflow));
}

#[test]
fn royalties_of_one_verified_creator() {
    let creators = Some(vec![creator(7, true, 10)]);
    assert_eq!(calculate_creator_payments(1000, &creators), Ok((vec![(party(7), 100)], 900)));
}

#[test]
fn royalties_without_a_creator_list() {
    assert_eq!(calculate_creator_payments(1000, &None), Ok((vec![], 1000)));
    assert_eq!(calculate_creator_payments(1000, &Some(vec![])), Ok((vec![], 1000)));
}

#[test]
fn royalties_skip_unverified_creators_and_keep_the_order() {
    let creators = Some(vec![
        creator(9, true, 5),
        creator(8, false, 50),
        creator(7, true, 20),
        creator(6, true, 0),
    ]);
    assert_eq!(
        calculate_creator_payments(1000, &creators),
        Ok((vec![(party(9), 50), (party(7), 200), (party(6), 0)], 750))
    );
}

#[test]
fn royalties_round_each_fee_down() {
    let creators = Some(vec![creator(1, true, 33), creator(2, true, 33), creator(3, true, 34)]);
    // 33% of 10 is 3.3, 34% is 3.4: each rounds down to 3, and 1 is left.
    assert_eq!(
        calculate_creator_payments(10, &creators),
        Ok((vec![(party(1), 3), (party(2), 3), (party(3), 3)], 1))
    );
}

#[test]
fn royalties_and_remainder_add_up_to_the_price() {
    let creators = Some(vec![creator(1, true, 17), creator(2, true, 29), creator(3, true, 54)]);
    for price in [1u64, 2, 99, 100, 101, 12345, u64::MAX - 1, u64::MAX] {
        let (payments, remainder) = calculate_creator_payments(price, &creators).unwrap();
        let paid: u128 = payments.iter().map(|p| p.1 as u128).sum();
        assert_eq!(paid + remainder as u128, price as u128);
    }
}

#[test]
fn royalties_of_the_whole_price() {
    let creators = Some(vec![creator(1, true, 100)]);
    assert_eq!(
        calculate_creator_payments(u64::MAX, &creators),
        Ok((vec![(party(1), u64::MAX)], 0))
    );
}

#[test]
fn royalties_above_the_price_overflow() {
    let creators = Some(vec![creator(1, true, 60), creator(2, true, 60)]);
    assert_eq!(calculate_creator_payments(1000, &creators), Err(MarketError::ArithmeticOverflow));
    let one = Some(vec![creator(1, true, 255)]);
    assert_eq!(calculate_creator_payments(u64::MAX, &one), Err(MarketError::ArithmeticOverflow));
    assert_eq!(calculate_creator_payments(100, &one), Err(MarketError::ArithmeticOverflow));
}

#[test]
fn shares_above_a_hundred_pass_where_rounding_keeps_them_within_the_price() {
    // 150% of 1 is 1.5, which rounds down to the whole price.
    let creators = Some(vec![creator(1, true, 150)]);
    assert_eq!(calculate_creator_payments(1, &creators), Ok((vec![(party(1), 1)], 0)));
}

#[test]
fn unverified_shares_never_overflow() {
    let creators = Some(vec![creator(1, false, 255), creator(2, false, 255)]);
    assert_eq!(calculate_creator_payments(u64::MAX, &creators), Ok((vec![], u64::MAX)));
}

#[test]
fn split_of_nine_hundred_without_second_bid() {
    assert_eq!(calculate_and_distribute_fee(900, 0), Ok((22, 0, 878)));
}

#[test]
fn split_of_nine_hundred_with_a_high_second_bid() {
    // The fee is 22 and a tenth of it, rounded down, is 2; the marketplace keeps 20.
    assert_eq!(calculate_and_distribute_fee(900, 500), Ok((20, 2, 878)));
}

#[test]
fn rebate_is_capped_by_the_second_bid() {
    // The fee on 1000000 is 25000, its tenth 2500; the bid was only 1000.
    assert_eq!(calculate_and_distribute_fee(1_000_000, 1000), Ok((24000, 1000, 975000)));
    assert_eq!(calculate_and_distribute_fee(1_000_000, 2500), Ok((22500, 2500, 975000)));
    assert_eq!(calculate_and_distribute_fee(1_000_000, 2501), Ok((22500, 2500, 975000)));
}

#[test]
fn split_of_small_amounts() {
    assert_eq!(calculate_and_distribute_fee(0, 0), Ok((0, 0, 0)));
    assert_eq!(calculate_and_distribute_fee(39, 10), Ok((0, 0, 39)));
    assert_eq!(calculate_and_distribute_fee(40, 10), Ok((1, 0, 39)));
    assert_eq!(calculate_and_distribute_fee(400, 10), Ok((9, 1, 390)));
}

#[test]
fn split_of_the_largest_amount() {
    let fee = 461168601842738790u64;
    let rebate = 46116860184273879u64;
    assert_eq!(
        calculate_and_distribute_fee(u64::MAX, u64::MAX),
        Ok((fee - rebate, rebate, u64::MAX - fee))
    );
}

#[test]
fn split_adds_up_to_the_amount() {
    for amount in [0u64, 1, 39, 40, 41, 399, 400, 900, 1234567, u64::MAX] {
        for bid in [0u64, 1, 2, 1000, u64::MAX] {
            let (marketplace, rebate, seller) = calculate_and_distribute_fee(amount, bid).unwrap();
            assert_eq!(marketplace as u128 + rebate as u128 + seller as u128, amount as u128);
            assert!(rebate <= bid);
            let fee = (amount as u128 * 250 / 10000) as u64;
            assert!(rebate as u128 <= fee as u128 * 1000 / 10000);
            assert_eq!(marketplace + rebate, fee);
        }
    }
}

#[test]
fn payments_leave_in_the_fixed_order() {
    let plan = transfer_payments(&payees(), 878, &[(party(7), 100), (party(8), 5)], 20, 2);
    assert_eq!(
        plan,
        vec![
            Transfer { from: funds(1), to: funds(2), amount: 878 },
            Transfer { from: funds(1), to: funds(7), amount: 100 },
            Transfer { from: funds(1), to: funds(8), amount: 5 },
            Transfer { from: funds(1), to: funds(3), amount: 20 },
            Transfer { from: funds(1), to: funds(4), amount: 2 },
        ]
    );
}

#[test]
fn payments_of_nothing_are_left_out() {
    let plan = transfer_payments(&payees(), 878, &[(party(7), 0), (party(8), 5)], 22, 0);
    assert_eq!(
        plan,
        vec![
            Transfer { from: funds(1), to: funds(2), amount: 878 },
            Transfer { from: funds(1), to: funds(8), amount: 5 },
            Transfer { from: funds(1), to: funds(3), amount: 22 },
        ]
    );
    assert_eq!(transfer_payments(&payees(), 0, &[], 0, 0), vec![]);
    assert_eq!(
        transfer_payments(&payees(), 0, &[], 0, 1),
        vec![Transfer { from: funds(1), to: funds(4), amount: 1 }]
    );
}

#[test]
fn payments_draw_on_the_given_source() {
    let escrow = Holding::Escrow { bidder: party(5), asset: party(6) };
    let from_escrow = Payees { source: escrow, ..payees() };
    assert_eq!(
        transfer_payments(&from_escrow, 1, &[(party(7), 2)], 3, 4),
        vec![
            Transfer { from: escrow, to: funds(2), amount: 1 },
            Transfer { from: escrow, to: funds(7), amount: 2 },
            Transfer { from: escrow, to: funds(3), amount: 3 },
            Transfer { from: escrow, to: funds(4), amount: 4 },
        ]
    );
}

#[test]
fn settlement_of_a_thousand_with_one_creator() {
    let creators = Some(vec![creator(7, true, 10)]);
    let paid = settle(1000, &creators, 0).unwrap();
    assert_eq!(
        paid,
        Settlement {
            creator_payments: vec![(party(7), 100)],
            marketplace_fee: 22,
            rebate_fee: 0,
            seller_payment: 878,
        }
    );
    assert_eq!(100 + 0 + 22 + 878, 1000);
}

#[test]
fn settlement_adds_up_to_the_price() {
    let creators = Some(vec![creator(7, true, 10), creator(8, false, 90), creator(9, true, 3)]);
    for price in [1u64, 7, 1000, 999_999, u64::MAX] {
        for bid in [0u64, 5, u64::MAX] {
            let paid = settle(price, &creators, bid).unwrap();
            let royalties: u128 = paid.creator_payments.iter().map(|p| p.1 as u128).sum();
            let total = royalties
                + paid.marketplace_fee as u128
                + paid.rebate_fee as u128
                + paid.seller_payment as u128;
            assert_eq!(total, price as u128);
            let moved: u128 =
                paid.transfers(&payees()).iter().map(|t| t.amount as u128).sum();
            assert_eq!(moved, price as u128);
        }
    }
}

#[test]
fn settlement_fails_where_royalties_exceed_the_price() {
    let creators = Some(vec![creator(7, true, 101)]);
    assert_eq!(settle(1000, &creators, 0), Err(MarketError::ArithmeticOverflow));
}

#[test]
fn settlement_transfers_follow_its_amounts() {
    let creators = Some(vec![creator(7, true, 10)]);
    let paid = settle(1000, &creators, 0).unwrap();
    assert_eq!(
        paid.transfers(&payees()),
        vec![
            Transfer { from: funds(1), to: funds(2), amount: 878 },
            Transfer { from: funds(1), to: funds(7), amount: 100 },
            Transfer { from: funds(1), to: funds(3), amount: 22 },
        ]
    );
}
