//! What holds of the engine as a whole, stated over the specifications of its
//! operations and proved.

use vstd::prelude::*;
use crate::arith::{lemma_proportion_bounded, lemma_proportion_superadditive, proportion};
use crate::bid::{
    accept_bid_outcome, acceptance_payees, cancel_bid_outcome, escrow_of, funds_of,
    place_bid_outcome, AcceptBid, CancelBid, PlaceBid,
};
use crate::custody::{
    after_move, carried_out, lemma_carried_out_one, lemma_carried_out_push,
    lemma_drawn_from_source, lemma_move_and_back, lemma_untouched_holding, total_moved, Holding,
};
use crate::error::MarketError;
use crate::fee::{
    lemma_fee_bounds, marketplace_fee, nominal_marketplace_fee, rebate_fee, seller_payment,
    total_fee, FEE_DENOMINATOR, MARKETPLACE_FEE_SHARE, SECOND_BIDDER_FEE_SHARE,
};
use crate::listing::{
    cancel_listing_outcome, create_listing_outcome, execute_sale_outcome, sale_payees, units_of,
    vault_of, CancelListing, CreateListing, ExecuteSale,
};
use crate::royalty::{
    lemma_royalties_within_price, registry_list, royalties, royalty_remainder, total_due,
    verified_share, Creator, SHARE_DENOMINATOR,
};
use crate::settlement::{
    lemma_payment_plan_shape, lemma_payment_plan_total, lemma_settlement_total, settlement, Payees,
};

verus! {

/// Royalties conserve the price: where the shares of the verified creators
/// come to at most a hundred percent, the royalties and what they leave of
/// the price add up to the price, and what they leave is not negative.
pub proof fn law_royalties_conserve_price(price: nat, creators: Seq<Creator>)
    requires
        verified_share(creators) <= SHARE_DENOMINATOR,
    ensures
        royalty_remainder(price, creators) >= 0,
        total_due(royalties(price, creators)) + royalty_remainder(price, creators) == price,
{
    lemma_royalties_within_price(price, creators);
}

/// The platform split conserves the remainder: the marketplace's fee, the
/// rebate and the seller's proceeds add up to what was left after royalties.
pub proof fn law_platform_split_conserves_remainder(remainder: nat, second_highest_bid: nat)
    ensures
        marketplace_fee(remainder, second_highest_bid) + rebate_fee(remainder, second_highest_bid)
            + seller_payment(remainder) == remainder,
        marketplace_fee(remainder, second_highest_bid) + rebate_fee(remainder, second_highest_bid)
            == total_fee(remainder),
{
    lemma_fee_bounds(remainder, second_highest_bid);
}

/// The rebate is capped twice: by the second-highest bid, and by a tenth of
/// the platform fee, rounded down.
pub proof fn law_rebate_is_capped(remainder: nat, second_highest_bid: nat)
    ensures
        rebate_fee(remainder, second_highest_bid) <= second_highest_bid,
        rebate_fee(remainder, second_highest_bid) <= proportion(
            total_fee(remainder),
            SECOND_BIDDER_FEE_SHARE as nat,
            FEE_DENOMINATOR as nat,
        ),
{
}

/// The marketplace keeps at least its nominal share: what the cap withholds
/// from the rebate, and the unit that rounding may leave over, go to the
/// marketplace and to nobody else.
pub proof fn law_marketplace_keeps_its_nominal_share(remainder: nat, second_highest_bid: nat)
    ensures
        marketplace_fee(remainder, second_highest_bid) >= nominal_marketplace_fee(remainder),
{
    lemma_fee_bounds(remainder, second_highest_bid);
    let fee = total_fee(remainder);
    lemma_proportion_superadditive(
        fee,
        MARKETPLACE_FEE_SHARE as nat,
        SECOND_BIDDER_FEE_SHARE as nat,
        FEE_DENOMINATOR as nat,
    );
    lemma_proportion_bounded(fee, FEE_DENOMINATOR as nat, FEE_DENOMINATOR as nat);
}

/// A settlement conserves the price: the royalties, the marketplace's fee, the
/// rebate and the seller's proceeds add up to the price, and so do the
/// payments that the ledger is asked for, whoever the payees are.
pub proof fn law_settlement_conserves_price(
    price: nat,
    creators: Seq<Creator>,
    second_highest_bid: nat,
    payees: Payees,
)
    requires
        settlement(price, creators, second_highest_bid) is Some,
    ensures
        settlement(price, creators, second_highest_bid)->Some_0.total() == price,
        total_moved(settlement(price, creators, second_highest_bid)->Some_0.plan(payees))
            == price,
{
    lemma_settlement_total(price, creators, second_highest_bid);
    let paid = settlement(price, creators, second_highest_bid)->Some_0;
    lemma_payment_plan_total(
        payees,
        paid.seller_payment,
        paid.creator_dues,
        paid.marketplace_fee,
        paid.rebate_fee,
    );
}

/// Creating a listing and cancelling it at once is a round trip: where the
/// ledger carried out the creation, the seller may cancel, the ledger carries
/// out the cancellation, every holding ends with what it had before the
/// creation, the seller's among them, and no record is left.
pub proof fn law_listing_round_trip(
    book: Map<Holding, nat>,
    ctx: CreateListing,
    price: u64,
    quantity: u64,
    expiry: i64,
    now: i64,
)
    requires
        create_listing_outcome(ctx, price, quantity, expiry, now) is Ok,
        carried_out(book, create_listing_outcome(ctx, price, quantity, expiry, now)->Ok_0.moves)
            is Some,
    ensures
        ({
            let created = create_listing_outcome(ctx, price, quantity, expiry, now)->Ok_0;
            let stocked = carried_out(book, created.moves)->Some_0;
            let cancelled = cancel_listing_outcome(
                CancelListing {
                    seller: ctx.seller,
                    listing_id: ctx.listing_id,
                    listing: created.record.after(),
                },
            );
            &&& cancelled is Ok
            &&& carried_out(stocked, cancelled->Ok_0.moves) == Some(book)
            &&& carried_out(stocked, cancelled->Ok_0.moves)->Some_0[units_of(
                ctx.seller,
                ctx.nft_mint,
            )] == book[units_of(ctx.seller, ctx.nft_mint)]
            &&& cancelled->Ok_0.record.after() is None
        }),
{
    let created = create_listing_outcome(ctx, price, quantity, expiry, now)->Ok_0;
    let there = created.moves[0];
    assert(created.moves == seq![there]);
    lemma_carried_out_one(book, there);
    lemma_move_and_back(book, there);
    let stocked = after_move(book, there);
    let cancelled = cancel_listing_outcome(
        CancelListing {
            seller: ctx.seller,
            listing_id: ctx.listing_id,
            listing: created.record.after(),
        },
    );
    assert(cancelled->Ok_0.moves == seq![there.reversed()]);
    lemma_carried_out_one(stocked, there.reversed());
}

/// Placing a bid and cancelling it at once is a round trip: where the ledger
/// carried out the placing, the bidder may cancel, the ledger carries out the
/// cancellation, every holding ends with what it had before the bid, the
/// bidder's among them, and no record is left.
pub proof fn law_bid_round_trip(
    book: Map<Holding, nat>,
    ctx: PlaceBid,
    price: u64,
    expiry: i64,
    now: i64,
)
    requires
        place_bid_outcome(ctx, price, expiry, now) is Ok,
        carried_out(book, place_bid_outcome(ctx, price, expiry, now)->Ok_0.moves) is Some,
    ensures
        ({
            let placed = place_bid_outcome(ctx, price, expiry, now)->Ok_0;
            let escrowed = carried_out(book, placed.moves)->Some_0;
            let cancelled = cancel_bid_outcome(
                CancelBid { bidder: ctx.bidder, bid_id: ctx.bid_id, bid: placed.record.after() },
            );
            &&& cancelled is Ok
            &&& carried_out(escrowed, cancelled->Ok_0.moves) == Some(book)
            &&& carried_out(escrowed, cancelled->Ok_0.moves)->Some_0[funds_of(ctx.bidder)]
                == book[funds_of(ctx.bidder)]
            &&& cancelled->Ok_0.record.after() is None
        }),
{
    let placed = place_bid_outcome(ctx, price, expiry, now)->Ok_0;
    let there = placed.moves[0];
    assert(placed.moves == seq![there]);
    lemma_carried_out_one(book, there);
    lemma_move_and_back(book, there);
    let escrowed = after_move(book, there);
    let cancelled = cancel_bid_outcome(
        CancelBid { bidder: ctx.bidder, bid_id: ctx.bid_id, bid: placed.record.after() },
    );
    assert(cancelled->Ok_0.moves == seq![there.reversed()]);
    lemma_carried_out_one(escrowed, there.reversed());
}

/// A sale takes one unit: a sale that goes through on a listing with one unit
/// destroys the record; on a listing with more it leaves a record that differs
/// from the old one in the quantity alone, which is one less.
pub proof fn law_sale_takes_one_unit(ctx: ExecuteSale, second_highest_bid: u64)
    requires
        execute_sale_outcome(ctx, second_highest_bid) is Ok,
    ensures
        ({
            let sold = execute_sale_outcome(ctx, second_highest_bid)->Ok_0;
            let listing = ctx.listing->Some_0;
            &&& ctx.listing is Some
            &&& listing.quantity >= 1
            &&& listing.quantity == 1 ==> sold.record.after() is None
            &&& listing.quantity > 1 ==> {
                let left = sold.record.after()->Some_0;
                &&& sold.record.after() is Some
                &&& left.quantity == listing.quantity - 1
                &&& left.seller == listing.seller
                &&& left.nft_mint == listing.nft_mint
                &&& left.price == listing.price
                &&& left.created_at == listing.created_at
                &&& left.expiry == listing.expiry
            }
        }),
{
}

/// Only the owner cancels: a cancellation by anyone but the seller of a
/// listing, or the bidder of a bid, fails with `Unauthorized`. Like every
/// failure it bears no plan, so that no transfer is asked for and no record
/// changed.
pub proof fn law_only_the_owner_cancels(listing: CancelListing, bid: CancelBid)
    ensures
        (listing.listing is Some && listing.listing->Some_0.seller != listing.seller) ==> (
        cancel_listing_outcome(listing) is Err && cancel_listing_outcome(listing)->Err_0
            == MarketError::Unauthorized),
        (bid.bid is Some && bid.bid->Some_0.bidder != bid.bidder) ==> (cancel_bid_outcome(bid)
            is Err && cancel_bid_outcome(bid)->Err_0 == MarketError::Unauthorized),
{
}

/// A new listing is stocked: once the ledger has carried out the creation, the
/// vault of the listing holds what it held before and the listed units, which
/// is no less than the quantity of the record.
pub proof fn law_created_listing_is_stocked(
    book: Map<Holding, nat>,
    ctx: CreateListing,
    price: u64,
    quantity: u64,
    expiry: i64,
    now: i64,
)
    requires
        create_listing_outcome(ctx, price, quantity, expiry, now) is Ok,
        carried_out(book, create_listing_outcome(ctx, price, quantity, expiry, now)->Ok_0.moves)
            is Some,
    ensures
        ({
            let created = create_listing_outcome(ctx, price, quantity, expiry, now)->Ok_0;
            let stocked = carried_out(book, created.moves)->Some_0;
            let vault = vault_of(ctx.seller, ctx.nft_mint);
            &&& created.record.after() is Some
            &&& stocked[vault] == book[vault] + quantity
            &&& stocked[vault] >= created.record.after()->Some_0.quantity
        }),
{
    let created = create_listing_outcome(ctx, price, quantity, expiry, now)->Ok_0;
    assert(created.moves == seq![created.moves[0]]);
    lemma_carried_out_one(book, created.moves[0]);
}

/// A sale keeps a listing stocked: where the vault held at least the quantity
/// of the record before a sale, it does so after the ledger has carried the
/// sale out. The sale takes exactly one unit out of the vault.
pub proof fn law_sale_keeps_listing_stocked(
    book: Map<Holding, nat>,
    ctx: ExecuteSale,
    second_highest_bid: u64,
)
    requires
        execute_sale_outcome(ctx, second_highest_bid) is Ok,
        carried_out(book, execute_sale_outcome(ctx, second_highest_bid)->Ok_0.moves) is Some,
        book[vault_of(ctx.listing->Some_0.seller, ctx.listing->Some_0.nft_mint)]
            >= ctx.listing->Some_0.quantity,
    ensures
        ({
            let sold = execute_sale_outcome(ctx, second_highest_bid)->Ok_0;
            let after = carried_out(book, sold.moves)->Some_0;
            let vault = vault_of(ctx.listing->Some_0.seller, ctx.listing->Some_0.nft_mint);
            &&& after[vault] + 1 == book[vault]
            &&& sold.record.after() is Some ==> after[vault] >= sold.record.after()->Some_0.quantity
        }),
{
    let listing = ctx.listing->Some_0;
    let sold = execute_sale_outcome(ctx, second_highest_bid)->Ok_0;
    let vault = vault_of(listing.seller, listing.nft_mint);
    let paid = settlement(
        listing.price as nat,
        registry_list(ctx.creators),
        second_highest_bid as nat,
    )->Some_0;
    let payments = paid.plan(sale_payees(ctx, listing));
    let delivery = sold.moves.last();
    assert(sold.moves == payments.push(delivery));
    lemma_carried_out_push(book, payments, delivery);
    lemma_payment_plan_shape(
        sale_payees(ctx, listing),
        paid.seller_payment,
        paid.creator_dues,
        paid.marketplace_fee,
        paid.rebate_fee,
    );
    lemma_untouched_holding(book, payments, vault);
}

/// A new bid is escrowed: once the ledger has carried out the placing, the
/// escrow of the bid holds what it held before and the price.
pub proof fn law_placed_bid_is_escrowed(
    book: Map<Holding, nat>,
    ctx: PlaceBid,
    price: u64,
    expiry: i64,
    now: i64,
)
    requires
        place_bid_outcome(ctx, price, expiry, now) is Ok,
        carried_out(book, place_bid_outcome(ctx, price, expiry, now)->Ok_0.moves) is Some,
    ensures
        ({
            let placed = place_bid_outcome(ctx, price, expiry, now)->Ok_0;
            let escrowed = carried_out(book, placed.moves)->Some_0;
            let escrow = escrow_of(ctx.bidder, ctx.nft_mint);
            &&& placed.record.after() is Some
            &&& escrowed[escrow] == book[escrow] + placed.record.after()->Some_0.price
        }),
{
    let placed = place_bid_outcome(ctx, price, expiry, now)->Ok_0;
    assert(placed.moves == seq![placed.moves[0]]);
    lemma_carried_out_one(book, placed.moves[0]);
}

/// An accepted bid is paid out of its escrow in full: once the ledger has
/// carried out the acceptance, the escrow of the bid holds what it held before
/// less the price, no more and no less.
pub proof fn law_acceptance_pays_out_the_escrow(
    book: Map<Holding, nat>,
    ctx: AcceptBid,
    second_highest_bid: u64,
)
    requires
        accept_bid_outcome(ctx, second_highest_bid) is Ok,
        carried_out(book, accept_bid_outcome(ctx, second_highest_bid)->Ok_0.moves) is Some,
    ensures
        ({
            let accepted = accept_bid_outcome(ctx, second_highest_bid)->Ok_0;
            let after = carried_out(book, accepted.moves)->Some_0;
            let bid = ctx.bid->Some_0;
            &&& after[escrow_of(bid.bidder, bid.nft_mint)] + bid.price == book[escrow_of(
                bid.bidder,
                bid.nft_mint,
            )]
            &&& accepted.record.after() is None
        }),
{
    let bid = ctx.bid->Some_0;
    let accepted = accept_bid_outcome(ctx, second_highest_bid)->Ok_0;
    let escrow = escrow_of(bid.bidder, bid.nft_mint);
    let paid = settlement(
        bid.price as nat,
        registry_list(ctx.creators),
        second_highest_bid as nat,
    )->Some_0;
    let payees = acceptance_payees(ctx, bid);
    let payments = paid.plan(payees);
    let delivery = accepted.moves.last();
    assert(accepted.moves == payments.push(delivery));
    lemma_carried_out_push(book, payments, delivery);
    lemma_payment_plan_shape(
        payees,
        paid.seller_payment,
        paid.creator_dues,
        paid.marketplace_fee,
        paid.rebate_fee,
    );
    lemma_drawn_from_source(book, payments, escrow);
    law_settlement_conserves_price(
        bid.price as nat,
        registry_list(ctx.creators),
        second_highest_bid as nat,
        payees,
    );
}

/// A sale needs a unit in the vault: the ledger refuses the plan of a sale
/// where the vault of the listing is empty.
pub proof fn law_sale_needs_a_stocked_vault(
    book: Map<Holding, nat>,
    ctx: ExecuteSale,
    second_highest_bid: u64,
)
    requires
        execute_sale_outcome(ctx, second_highest_bid) is Ok,
        book[vault_of(ctx.listing->Some_0.seller, ctx.listing->Some_0.nft_mint)] == 0,
    ensures
        carried_out(book, execute_sale_outcome(ctx, second_highest_bid)->Ok_0.moves) is None,
{
    let listing = ctx.listing->Some_0;
    let sold = execute_sale_outcome(ctx, second_highest_bid)->Ok_0;
    let paid = settlement(
        listing.price as nat,
        registry_list(ctx.creators),
        second_highest_bid as nat,
    )->Some_0;
    let payments = paid.plan(sale_payees(ctx, listing));
    let delivery = sold.moves.last();
    assert(sold.moves == payments.push(delivery));
    lemma_carried_out_push(book, payments, delivery);
    if carried_out(book, payments) is Some {
        lemma_payment_plan_shape(
            sale_payees(ctx, listing),
            paid.seller_payment,
            paid.creator_dues,
            paid.marketplace_fee,
            paid.rebate_fee,
        );
        lemma_untouched_holding(book, payments, vault_of(listing.seller, listing.nft_mint));
    }
}

/// An acceptance needs the unit: the ledger refuses the plan of an acceptance
/// where the seller holds no unit of the asset.
pub proof fn law_acceptance_needs_the_unit(
    book: Map<Holding, nat>,
    ctx: AcceptBid,
    second_highest_bid: u64,
)
    requires
        accept_bid_outcome(ctx, second_highest_bid) is Ok,
        book[units_of(ctx.seller, ctx.bid->Some_0.nft_mint)] == 0,
    ensures
        carried_out(book, accept_bid_outcome(ctx, second_highest_bid)->Ok_0.moves) is None,
{
    let bid = ctx.bid->Some_0;
    let accepted = accept_bid_outcome(ctx, second_highest_bid)->Ok_0;
    let paid = settlement(
        bid.price as nat,
        registry_list(ctx.creators),
        second_highest_bid as nat,
    )->Some_0;
    let payees = acceptance_payees(ctx, bid);
    let payments = paid.plan(payees);
    let delivery = accepted.moves.last();
    assert(accepted.moves == payments.push(delivery));
    lemma_carried_out_push(book, payments, delivery);
    if carried_out(book, payments) is Some {
        lemma_payment_plan_shape(
            payees,
            paid.seller_payment,
            paid.creator_dues,
            paid.marketplace_fee,
            paid.rebate_fee,
        );
        lemma_untouched_holding(book, payments, units_of(ctx.seller, bid.nft_mint));
    }
}

/// Records stay well formed: a record that a creation or a placing writes is
/// well formed, and so is the record that a sale leaves of a well-formed one.
pub proof fn law_written_records_are_well_formed(
    create: CreateListing,
    place: PlaceBid,
    sale: ExecuteSale,
    price: u64,
    quantity: u64,
    expiry: i64,
    now: i64,
    second_highest_bid: u64,
)
    ensures
        create_listing_outcome(create, price, quantity, expiry, now) is Ok ==> {
            let record = create_listing_outcome(
                create,
                price,
                quantity,
                expiry,
                now,
            )->Ok_0.record.after();
            record is Some && record->Some_0.well_formed()
        },
        place_bid_outcome(place, price, expiry, now) is Ok ==> {
            let record = place_bid_outcome(place, price, expiry, now)->Ok_0.record.after();
            record is Some && record->Some_0.well_formed()
        },
        (execute_sale_outcome(sale, second_highest_bid) is Ok
            && sale.listing->Some_0.well_formed()) ==> {
            let record = execute_sale_outcome(sale, second_highest_bid)->Ok_0.record.after();
            record is Some ==> record->Some_0.well_formed()
        },
{
}

} // verus!
