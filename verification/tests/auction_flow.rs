//! The English auction: bidding, minimum increments, the outbid-refund
//! queue, proxy auto-bidding, anti-snipe extension, conclusion, and the
//! final settlement.

use timemarket::auction::{
    auction_checkin, auction_end, auction_settle, auction_start, auction_update_end,
    bid_outbid_refund, bid_place, buy_now, init_auto_bid_store, init_bid_book, init_refund_queue,
    AutoBidStore, BidBook, RefundQueue,
};
use timemarket::errors::ErrorCode;
use timemarket::escrow::{init_escrow, Escrow};
use timemarket::market::{init_creator_profile, init_platform, CreatorProfile, Platform};
use timemarket::slot::{create_time_slot, CreateSlotParams, Mode, SlotState, TimeSlot};

const ADMIN: u64 = 1;
const CREATOR: u64 = 10;
const ALICE: u64 = 21;
const BOB: u64 = 22;
const CARA: u64 = 23;

fn setup(fee_bps: u16) -> (Platform, CreatorProfile) {
    let platform = init_platform(ADMIN, fee_bps, 900, 901, 902).unwrap();
    let profile = init_creator_profile(CREATOR, 11, None, 100).unwrap();
    (platform, profile)
}

fn auction_params(price: u64, min_increment_bps: u16) -> CreateSlotParams {
    CreateSlotParams {
        start_ts: 5000,
        end_ts: 6000,
        tz_offset_min: 0,
        subject_hash: vec![1u8],
        venue_hash: vec![2u8],
        mode: Mode::EnglishAuction,
        capacity: 1,
        nft_mint: None,
        price,
        min_increment_bps,
        buy_now: None,
        auction_start_ts: Some(1000),
        auction_end_ts: Some(2000),
        anti_sniping_sec: Some(100),
    }
}

fn live_auction(
    profile: &CreatorProfile,
    price: u64,
    min_increment_bps: u16,
) -> (TimeSlot, BidBook, Escrow, RefundQueue, AutoBidStore) {
    let mut slot =
        create_time_slot(profile, 50, 100, 900, auction_params(price, min_increment_bps)).unwrap();
    auction_start(&mut slot, CREATOR, 1000).unwrap();
    (slot, init_bid_book(), init_escrow(), init_refund_queue(8).unwrap(), init_auto_bid_store(
        8,
    ).unwrap())
}

#[test]
fn init_stores_reject_zero_bounds() {
    assert_eq!(init_refund_queue(0).unwrap_err(), ErrorCode::InvalidCapacity);
    assert_eq!(init_auto_bid_store(0).unwrap_err(), ErrorCode::InvalidCapacity);
    let b = init_bid_book();
    assert_eq!(b.highest_bid, 0);
    assert_eq!(b.next_min_bid, 0);
}

#[test]
fn auction_start_gates_time_and_caller() {
    let (_, profile) = setup(500);
    let mut slot = create_time_slot(&profile, 50, 100, 900, auction_params(100, 0)).unwrap();
    assert_eq!(auction_start(&mut slot, ALICE, 1000).unwrap_err(), ErrorCode::Unauthorized);
    assert_eq!(auction_start(&mut slot, CREATOR, 999).unwrap_err(), ErrorCode::TooEarly);
    auction_start(&mut slot, CREATOR, 1000).unwrap();
    assert_eq!(slot.state, SlotState::AuctionLive);
    assert_eq!(auction_start(&mut slot, CREATOR, 1000).unwrap_err(), ErrorCode::InvalidState);
}

/// A first bid below the starting price is too low.
#[test]
fn first_bid_below_price_is_too_low() {
    let (_, profile) = setup(500);
    let (mut slot, mut book, mut escrow, mut queue, mut store) = live_auction(&profile, 100, 1000);
    let r = bid_place(
        &mut slot,
        &mut book,
        &mut escrow,
        &mut queue,
        &mut store,
        ALICE,
        99,
        None,
        1100,
    );
    assert_eq!(r.unwrap_err(), ErrorCode::BidTooLow);
    assert_eq!(book.highest_bid, 0);
    assert_eq!(escrow.amount_locked, 0);
}

#[test]
fn bid_place_rejects_the_creator() {
    let (_, profile) = setup(500);
    let (mut slot, mut book, mut escrow, mut queue, mut store) = live_auction(&profile, 100, 1000);
    let r = bid_place(
        &mut slot,
        &mut book,
        &mut escrow,
        &mut queue,
        &mut store,
        CREATOR,
        100,
        None,
        1100,
    );
    assert_eq!(r.unwrap_err(), ErrorCode::Unauthorized);
}

#[test]
fn bid_below_min_increment_is_too_low() {
    let (_, profile) = setup(500);
    let (mut slot, mut book, mut escrow, mut queue, mut store) = live_auction(&profile, 100, 1000);
    bid_place(&mut slot, &mut book, &mut escrow, &mut queue, &mut store, ALICE, 100, None, 1100)
        .unwrap();
    // The next bid must reach 100 + 10% = 110.
    let r = bid_place(
        &mut slot,
        &mut book,
        &mut escrow,
        &mut queue,
        &mut store,
        BOB,
        109,
        None,
        1200,
    );
    assert_eq!(r.unwrap_err(), ErrorCode::BidTooLow);
    assert_eq!(book.highest_bid, 100);
    assert_eq!(book.highest_bidder, ALICE);
}

/// Outbidding enqueues the displaced bid instead of refunding it
/// synchronously, and the highest bid never decreases across accepted
/// bids.
#[test]
fn outbid_enqueues_refund_and_highest_is_monotonic() {
    let (_, profile) = setup(500);
    let (mut slot, mut book, mut escrow, mut queue, mut store) = live_auction(&profile, 100, 1000);
    bid_place(&mut slot, &mut book, &mut escrow, &mut queue, &mut store, ALICE, 100, None, 1100)
        .unwrap();
    assert_eq!(escrow.amount_locked, 100);
    let before = book.highest_bid;

    bid_place(&mut slot, &mut book, &mut escrow, &mut queue, &mut store, BOB, 120, None, 1200)
        .unwrap();
    assert!(book.highest_bid >= before);
    assert_eq!(book.highest_bid, 120);
    assert_eq!(book.highest_bidder, BOB);
    assert_eq!(book.next_min_bid, 110);
    assert_eq!(book.last_bid_ts, 1200);
    assert_eq!(escrow.amount_locked, 220);
    assert_eq!(queue.count, 1);
    assert_eq!(queue.entries[0].bidder, ALICE);
    assert_eq!(queue.entries[0].amount, 100);
}

/// A registered ceiling outbids an explicit bid synthetically: the
/// auto-bidder retakes the lead at exactly the next minimum, both
/// displaced bids are queued in order, and no synthetic funds are
/// deposited.
#[test]
fn proxy_auto_bid_retakes_the_lead() {
    let (_, profile) = setup(500);
    let (mut slot, mut book, mut escrow, mut queue, mut store) = live_auction(&profile, 100, 1000);
    bid_place(
        &mut slot,
        &mut book,
        &mut escrow,
        &mut queue,
        &mut store,
        ALICE,
        100,
        Some(200),
        1100,
    ).unwrap();
    assert_eq!(store.count, 1);
    assert_eq!(store.entries[0].bidder, ALICE);
    assert_eq!(store.entries[0].max_bid, 200);
    assert_eq!(book.highest_bidder, ALICE);

    bid_place(&mut slot, &mut book, &mut escrow, &mut queue, &mut store, BOB, 110, None, 1200)
        .unwrap();
    // Bob's 110 displaces Alice's 100; Alice's ceiling 200 then clears
    // the next minimum 121 and synthetically retakes the lead there.
    assert_eq!(book.highest_bidder, ALICE);
    assert_eq!(book.highest_bid, 121);
    // Only explicit bids were deposited.
    assert_eq!(escrow.amount_locked, 210);
    assert_eq!(queue.count, 2);
    assert_eq!(queue.entries[0].bidder, ALICE);
    assert_eq!(queue.entries[0].amount, 100);
    assert_eq!(queue.entries[1].bidder, BOB);
    assert_eq!(queue.entries[1].amount, 110);
}

/// Two registered ceilings duel through several synthetic rounds: each
/// counter-bid lands exactly at the next minimum, every displaced bid is
/// queued in order, and the duel stops when the lower ceiling no longer
/// clears the minimum.
#[test]
fn proxy_auto_bidders_duel_to_the_lower_ceiling() {
    let (_, profile) = setup(500);
    let (mut slot, mut book, mut escrow, mut queue, mut store) = live_auction(&profile, 100, 1000);
    bid_place(
        &mut slot,
        &mut book,
        &mut escrow,
        &mut queue,
        &mut store,
        ALICE,
        100,
        Some(300),
        1100,
    ).unwrap();
    bid_place(
        &mut slot,
        &mut book,
        &mut escrow,
        &mut queue,
        &mut store,
        CARA,
        110,
        Some(200),
        1200,
    ).unwrap();

    // Alice (ceiling 300) and Cara (ceiling 200) trade the lead at each
    // next minimum — 121, 133, 146, 160, 176, 193, 212 — until 233
    // exceeds Cara's ceiling, leaving Alice on top at 212.
    assert_eq!(book.highest_bidder, ALICE);
    assert_eq!(book.highest_bid, 212);
    // Only the two explicit bids were deposited.
    assert_eq!(escrow.amount_locked, 210);

    let owed: Vec<(u64, u64)> =
        queue.entries.iter().map(|e| (e.bidder, e.amount)).collect();
    assert_eq!(
        owed,
        vec![
            (ALICE, 100),
            (CARA, 110),
            (ALICE, 121),
            (CARA, 133),
            (ALICE, 146),
            (CARA, 160),
            (ALICE, 176),
            (CARA, 193),
        ]
    );
    assert_eq!(queue.count, 8);
}

#[test]
fn auto_bid_ceiling_is_updated_in_place() {
    let (_, profile) = setup(500);
    let (mut slot, mut book, mut escrow, mut queue, mut store) = live_auction(&profile, 100, 1000);
    bid_place(
        &mut slot,
        &mut book,
        &mut escrow,
        &mut queue,
        &mut store,
        ALICE,
        100,
        Some(150),
        1100,
    ).unwrap();
    bid_place(
        &mut slot,
        &mut book,
        &mut escrow,
        &mut queue,
        &mut store,
        ALICE,
        200,
        Some(400),
        1150,
    ).unwrap();
    assert_eq!(store.count, 1);
    assert_eq!(store.entries[0].max_bid, 400);
}

/// A failure during proxy resolution rejects the whole bid: with room
/// for only one queued refund, the synthetic counter-bid cannot queue
/// the second displacement, and nothing changes.
#[test]
fn full_refund_queue_rejects_the_whole_bid() {
    let (_, profile) = setup(500);
    let (mut slot, mut book, mut escrow, mut _queue, mut store) = live_auction(&profile, 100, 1000);
    let mut queue = init_refund_queue(1).unwrap();
    bid_place(
        &mut slot,
        &mut book,
        &mut escrow,
        &mut queue,
        &mut store,
        ALICE,
        100,
        Some(300),
        1100,
    ).unwrap();
    let r = bid_place(
        &mut slot,
        &mut book,
        &mut escrow,
        &mut queue,
        &mut store,
        BOB,
        110,
        None,
        1200,
    );
    assert_eq!(r.unwrap_err(), ErrorCode::InvalidCapacity);
    assert_eq!(book.highest_bid, 100);
    assert_eq!(book.highest_bidder, ALICE);
    assert_eq!(escrow.amount_locked, 100);
    assert_eq!(queue.count, 0);
}

/// A bid within the anti-snipe window pushes the auction end out by the
/// window.
#[test]
fn late_bid_extends_the_auction() {
    let (_, profile) = setup(500);
    let (mut slot, mut book, mut escrow, mut queue, mut store) = live_auction(&profile, 100, 1000);
    bid_place(&mut slot, &mut book, &mut escrow, &mut queue, &mut store, ALICE, 100, None, 1950)
        .unwrap();
    assert_eq!(slot.auction_end_ts, Some(2100));

    // An early bid does not extend.
    bid_place(&mut slot, &mut book, &mut escrow, &mut queue, &mut store, BOB, 200, None, 1960)
        .unwrap();
    assert_eq!(slot.auction_end_ts, Some(2100));
}

#[test]
fn bid_overflow_is_rejected_atomically() {
    let (_, profile) = setup(500);
    let (mut slot, mut book, mut escrow, mut queue, mut store) = live_auction(&profile, 100, 1000);
    book.highest_bid = u64::MAX;
    book.highest_bidder = CARA;
    escrow.amount_locked = u64::MAX;
    let r = bid_place(
        &mut slot,
        &mut book,
        &mut escrow,
        &mut queue,
        &mut store,
        ALICE,
        u64::MAX,
        None,
        1200,
    );
    assert_eq!(r.unwrap_err(), ErrorCode::Overflow);
    assert_eq!(book.highest_bid, u64::MAX);
    assert_eq!(escrow.amount_locked, u64::MAX);
    assert_eq!(queue.count, 0);
}

#[test]
fn refunds_are_claimed_in_fifo_order() {
    let (_, profile) = setup(500);
    let (mut slot, mut book, mut escrow, mut queue, mut store) = live_auction(&profile, 100, 1000);
    bid_place(&mut slot, &mut book, &mut escrow, &mut queue, &mut store, ALICE, 100, None, 1100)
        .unwrap();
    bid_place(&mut slot, &mut book, &mut escrow, &mut queue, &mut store, BOB, 120, None, 1150)
        .unwrap();
    bid_place(&mut slot, &mut book, &mut escrow, &mut queue, &mut store, CARA, 140, None, 1200)
        .unwrap();
    assert_eq!(queue.count, 2);
    assert_eq!(escrow.amount_locked, 360);

    // Bob cannot jump the queue: Alice's refund is first.
    assert_eq!(
        bid_outbid_refund(&slot, &mut queue, &mut escrow, BOB).unwrap_err(),
        ErrorCode::Unauthorized
    );
    assert_eq!(bid_outbid_refund(&slot, &mut queue, &mut escrow, ALICE).unwrap(), 100);
    assert_eq!(escrow.amount_locked, 260);
    assert_eq!(bid_outbid_refund(&slot, &mut queue, &mut escrow, BOB).unwrap(), 120);
    assert_eq!(escrow.amount_locked, 140);
    assert_eq!(
        bid_outbid_refund(&slot, &mut queue, &mut escrow, CARA).unwrap_err(),
        ErrorCode::NothingToRefund
    );
}

/// A refund larger than what the escrow holds fails closed and changes
/// nothing: no decrement may wrap.
#[test]
fn refund_exceeding_escrow_fails_closed() {
    let (_, profile) = setup(500);
    let (slot, _book, _escrow, mut queue, _store) = live_auction(&profile, 100, 1000);
    queue.entries.push(timemarket::auction::RefundEntry { bidder: ALICE, amount: 500 });
    queue.count = 1;
    let mut escrow = Escrow { amount_locked: 400, buyer: None };
    assert_eq!(
        bid_outbid_refund(&slot, &mut queue, &mut escrow, ALICE).unwrap_err(),
        ErrorCode::Overflow
    );
    assert_eq!(escrow.amount_locked, 400);
    assert_eq!(queue.count, 1);
    assert_eq!(queue.cursor, 0);
}

#[test]
fn refund_is_blocked_while_frozen() {
    let (_, profile) = setup(500);
    let (mut slot, mut book, mut escrow, mut queue, mut store) = live_auction(&profile, 100, 1000);
    bid_place(&mut slot, &mut book, &mut escrow, &mut queue, &mut store, ALICE, 100, None, 1100)
        .unwrap();
    bid_place(&mut slot, &mut book, &mut escrow, &mut queue, &mut store, BOB, 120, None, 1150)
        .unwrap();
    slot.frozen = true;
    assert_eq!(
        bid_outbid_refund(&slot, &mut queue, &mut escrow, ALICE).unwrap_err(),
        ErrorCode::Frozen
    );
    let r = bid_place(
        &mut slot,
        &mut book,
        &mut escrow,
        &mut queue,
        &mut store,
        CARA,
        200,
        None,
        1200,
    );
    assert_eq!(r.unwrap_err(), ErrorCode::Frozen);
}

#[test]
fn auction_end_pays_the_t0_milestone() {
    let (platform, profile) = setup(500);
    let (mut slot, mut book, mut escrow, mut queue, mut store) = live_auction(&profile, 100, 1000);
    bid_place(&mut slot, &mut book, &mut escrow, &mut queue, &mut store, BOB, 150, None, 1100)
        .unwrap();

    assert_eq!(
        auction_end(&platform, &profile, &mut slot, &book, &mut escrow, 1999).unwrap_err(),
        ErrorCode::TooEarly
    );
    let outcome = auction_end(&platform, &profile, &mut slot, &book, &mut escrow, 2000).unwrap();
    assert_eq!(outcome.winner, BOB);
    assert_eq!(outcome.winning_bid, 150);
    assert_eq!(outcome.payout.creator_amount, 58);
    assert_eq!(outcome.payout.fee_amount, 2);
    assert_eq!(escrow.amount_locked, 90);
    assert_eq!(escrow.buyer, Some(BOB));
    assert_eq!(slot.state, SlotState::Locked);
}

#[test]
fn auction_end_without_bids_is_rejected() {
    let (platform, profile) = setup(500);
    let (mut slot, book, mut escrow, _queue, _store) = live_auction(&profile, 100, 1000);
    assert_eq!(
        auction_end(&platform, &profile, &mut slot, &book, &mut escrow, 2000).unwrap_err(),
        ErrorCode::NoBids
    );
}

#[test]
fn auction_end_checks_the_escrow_balance() {
    let (platform, profile) = setup(500);
    let (mut slot, mut book, mut escrow, mut queue, mut store) = live_auction(&profile, 100, 1000);
    bid_place(&mut slot, &mut book, &mut escrow, &mut queue, &mut store, ALICE, 100, None, 1100)
        .unwrap();
    bid_place(&mut slot, &mut book, &mut escrow, &mut queue, &mut store, BOB, 120, None, 1150)
        .unwrap();
    // Alice's queued refund is still locked: the escrow does not match
    // the highest bid.
    assert_eq!(escrow.amount_locked, 220);
    assert_eq!(
        auction_end(&platform, &profile, &mut slot, &book, &mut escrow, 2000).unwrap_err(),
        ErrorCode::InvalidEscrowBalance
    );
    // Once the refund is claimed the balance matches and the auction ends.
    bid_outbid_refund(&slot, &mut queue, &mut escrow, ALICE).unwrap();
    assert_eq!(escrow.amount_locked, 120);
    auction_end(&platform, &profile, &mut slot, &book, &mut escrow, 2000).unwrap();
    assert_eq!(slot.state, SlotState::Locked);
}

/// The full auction ledger: every deposit and every disbursement is
/// reported by the operations, and the escrow always holds deposits
/// minus disbursements.
#[test]
fn auction_ledger_balances_at_every_step() {
    let (platform, profile) = setup(500);
    let (mut slot, mut book, mut escrow, mut queue, mut store) = live_auction(&profile, 100, 1000);
    let mut deposited: u64 = 0;
    let mut disbursed: u64 = 0;

    bid_place(&mut slot, &mut book, &mut escrow, &mut queue, &mut store, ALICE, 100, None, 1100)
        .unwrap();
    deposited += 100;
    assert_eq!(escrow.amount_locked, deposited - disbursed);

    bid_place(&mut slot, &mut book, &mut escrow, &mut queue, &mut store, BOB, 150, None, 1150)
        .unwrap();
    deposited += 150;
    assert_eq!(escrow.amount_locked, deposited - disbursed);

    disbursed += bid_outbid_refund(&slot, &mut queue, &mut escrow, ALICE).unwrap();
    assert_eq!(escrow.amount_locked, deposited - disbursed);

    let end = auction_end(&platform, &profile, &mut slot, &book, &mut escrow, 2000).unwrap();
    disbursed += end.payout.creator_amount + end.payout.fee_amount;
    assert_eq!(escrow.amount_locked, deposited - disbursed);

    auction_checkin(&mut slot, &escrow, BOB).unwrap();
    let t1 = auction_settle(&platform, &profile, &mut slot, &book, &mut escrow).unwrap();
    disbursed += t1.creator_amount + t1.fee_amount + t1.withheld_amount;
    assert_eq!(escrow.amount_locked, deposited - disbursed);
    assert_eq!(escrow.amount_locked, 0);
    assert_eq!(slot.state, SlotState::Settled);

    // The winner's bid was disbursed in full across the two milestones.
    assert_eq!(end.payout.creator_amount + end.payout.fee_amount + t1.creator_amount
        + t1.fee_amount + t1.withheld_amount, 150);
}

#[test]
fn auction_settle_requires_checkin() {
    let (platform, profile) = setup(500);
    let (mut slot, mut book, mut escrow, mut queue, mut store) = live_auction(&profile, 100, 1000);
    bid_place(&mut slot, &mut book, &mut escrow, &mut queue, &mut store, BOB, 150, None, 1100)
        .unwrap();
    auction_end(&platform, &profile, &mut slot, &book, &mut escrow, 2000).unwrap();
    assert_eq!(
        auction_settle(&platform, &profile, &mut slot, &book, &mut escrow).unwrap_err(),
        ErrorCode::InvalidState
    );
    auction_checkin(&mut slot, &escrow, CREATOR).unwrap();
    let t1 = auction_settle(&platform, &profile, &mut slot, &book, &mut escrow).unwrap();
    assert_eq!(t1.creator_amount, 84);
    assert_eq!(t1.fee_amount, 4);
    assert_eq!(t1.withheld_amount, 2);
}

#[test]
fn buy_now_settles_instantly() {
    let (platform, profile) = setup(500);
    let mut params = auction_params(100, 1000);
    params.buy_now = Some(500);
    let mut slot = create_time_slot(&profile, 50, 100, 900, params).unwrap();
    let mut book = init_bid_book();
    let mut escrow = init_escrow();

    let outcome = buy_now(&platform, &profile, &mut slot, &mut book, &mut escrow, BOB).unwrap();
    assert_eq!(outcome.winner, BOB);
    assert_eq!(outcome.winning_bid, 500);
    assert_eq!(outcome.payout.creator_amount, 190);
    assert_eq!(outcome.payout.fee_amount, 10);
    assert_eq!(escrow.amount_locked, 300);
    assert_eq!(escrow.buyer, Some(BOB));
    assert_eq!(book.highest_bid, 500);
    assert_eq!(book.highest_bidder, BOB);
    assert_eq!(slot.state, SlotState::Locked);
}

#[test]
fn buy_now_needs_a_configured_price() {
    let (platform, profile) = setup(500);
    let (mut slot, mut book, mut escrow, _queue, _store) = live_auction(&profile, 100, 1000);
    assert_eq!(
        buy_now(&platform, &profile, &mut slot, &mut book, &mut escrow, BOB).unwrap_err(),
        ErrorCode::InvalidPrice
    );
}

#[test]
fn auction_update_end_moves_freely_before_live() {
    let (_, profile) = setup(500);
    let mut slot = create_time_slot(&profile, 50, 100, 900, auction_params(100, 0)).unwrap();
    auction_update_end(&mut slot, CREATOR, 1200, 1500).unwrap();
    assert_eq!(slot.auction_end_ts, Some(1500));
    // Before the auction is live the end may also be pulled in.
    auction_update_end(&mut slot, CREATOR, 1200, 1400).unwrap();
    assert_eq!(slot.auction_end_ts, Some(1400));
}

#[test]
fn auction_update_end_only_extends_once_live() {
    let (_, profile) = setup(500);
    let mut slot = create_time_slot(&profile, 50, 100, 900, auction_params(100, 0)).unwrap();
    auction_start(&mut slot, CREATOR, 1000).unwrap();
    assert_eq!(
        auction_update_end(&mut slot, CREATOR, 1200, 1900).unwrap_err(),
        ErrorCode::TooEarly
    );
    auction_update_end(&mut slot, CREATOR, 1200, 2500).unwrap();
    assert_eq!(slot.auction_end_ts, Some(2500));
}

#[test]
fn auction_update_end_rejects_past_and_strangers() {
    let (_, profile) = setup(500);
    let mut slot = create_time_slot(&profile, 50, 100, 900, auction_params(100, 0)).unwrap();
    assert_eq!(
        auction_update_end(&mut slot, ALICE, 1200, 2500).unwrap_err(),
        ErrorCode::Unauthorized
    );
    assert_eq!(
        auction_update_end(&mut slot, CREATOR, 1200, 1100).unwrap_err(),
        ErrorCode::InvalidTimes
    );
    assert_eq!(
        auction_update_end(&mut slot, CREATOR, 3000, 2500).unwrap_err(),
        ErrorCode::InvalidTimes
    );
}
