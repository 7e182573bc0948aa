//! The sealed-bid engine: commitments, reveals, winner selection, and
//! the final settlement.

use timemarket::auction::auction_checkin;
use timemarket::errors::ErrorCode;
use timemarket::escrow::{init_escrow, Escrow};
use timemarket::market::{init_creator_profile, init_platform, CreatorProfile, Platform};
use timemarket::sealed::{
    bid_commit, bid_reveal, commitment_digest, init_commit_store, sealed_auction_end,
    sealed_auction_settle, CommitStore,
};
use timemarket::slot::{create_time_slot, CreateSlotParams, Mode, SlotState, TimeSlot};

const ADMIN: u64 = 1;
const CREATOR: u64 = 10;
const VERA: u64 = 31;
const WALT: u64 = 32;

fn setup(fee_bps: u16) -> (Platform, CreatorProfile) {
    let platform = init_platform(ADMIN, fee_bps, 900, 901, 902).unwrap();
    let profile = init_creator_profile(CREATOR, 11, None, 100).unwrap();
    (platform, profile)
}

fn sealed_slot(profile: &CreatorProfile) -> TimeSlot {
    let params = CreateSlotParams {
        start_ts: 5000,
        end_ts: 6000,
        tz_offset_min: 0,
        subject_hash: vec![1u8],
        venue_hash: vec![2u8],
        mode: Mode::SealedBid,
        capacity: 1,
        nft_mint: None,
        price: 100,
        min_increment_bps: 0,
        buy_now: None,
        auction_start_ts: Some(1000),
        auction_end_ts: Some(2000),
        anti_sniping_sec: None,
    };
    create_time_slot(profile, 50, 100, 900, params).unwrap()
}

fn commit_bid(slot: &TimeSlot, store: &mut CommitStore, bidder: u64, amount: u64, salt: &Vec<u8>) {
    let digest = commitment_digest(amount, salt, bidder);
    bid_commit(slot, store, bidder, digest).unwrap();
}

#[test]
fn commit_is_unique_per_bidder_and_bounded() {
    let (_, profile) = setup(500);
    let slot = sealed_slot(&profile);
    let mut store = init_commit_store(2).unwrap();

    commit_bid(&slot, &mut store, VERA, 300, &vec![7u8; 16]);
    assert_eq!(store.count, 1);
    assert_eq!(
        bid_commit(&slot, &mut store, VERA, vec![0u8; 32]).unwrap_err(),
        ErrorCode::AlreadyCommitted
    );

    commit_bid(&slot, &mut store, WALT, 400, &vec![8u8; 16]);
    assert_eq!(
        bid_commit(&slot, &mut store, 33, vec![0u8; 32]).unwrap_err(),
        ErrorCode::InvalidCapacity
    );
}

#[test]
fn commit_rejects_wrong_mode() {
    let (_, profile) = setup(500);
    let mut slot = sealed_slot(&profile);
    slot.mode = Mode::Stable;
    let mut store = init_commit_store(2).unwrap();
    assert_eq!(
        bid_commit(&slot, &mut store, VERA, vec![0u8; 32]).unwrap_err(),
        ErrorCode::WrongMode
    );
    assert_eq!(
        bid_reveal(&slot, &mut store, VERA, 300, &vec![7u8; 16]).unwrap_err(),
        ErrorCode::WrongMode
    );
}

/// The reveal must hash to the stored commitment: the right amount and
/// salt are accepted, a wrong amount or salt is rejected, and a second
/// reveal is rejected.
#[test]
fn reveal_round_trip_and_mismatches() {
    let (_, profile) = setup(500);
    let slot = sealed_slot(&profile);
    let mut store = init_commit_store(4).unwrap();
    let salt = vec![7u8; 16];
    commit_bid(&slot, &mut store, VERA, 300, &salt);

    assert_eq!(
        bid_reveal(&slot, &mut store, WALT, 300, &salt).unwrap_err(),
        ErrorCode::NotCommitted
    );
    assert_eq!(
        bid_reveal(&slot, &mut store, VERA, 301, &salt).unwrap_err(),
        ErrorCode::RevealMismatch
    );
    assert_eq!(
        bid_reveal(&slot, &mut store, VERA, 300, &vec![9u8; 16]).unwrap_err(),
        ErrorCode::RevealMismatch
    );

    bid_reveal(&slot, &mut store, VERA, 300, &salt).unwrap();
    assert!(store.entries[0].revealed);
    assert_eq!(store.entries[0].bid_amount, Some(300));

    assert_eq!(
        bid_reveal(&slot, &mut store, VERA, 300, &salt).unwrap_err(),
        ErrorCode::AlreadyRevealed
    );
}

#[test]
fn commitments_of_different_bidders_differ() {
    // The digest binds the bidder identity: the same amount and salt
    // committed by another bidder yields a different commitment.
    let salt = vec![5u8; 16];
    let d1 = commitment_digest(300, &salt, VERA);
    let d2 = commitment_digest(300, &salt, WALT);
    assert_ne!(d1, d2);
    // And the digest is not the salt handed back.
    assert_ne!(d1, salt);
}

#[test]
fn sealed_end_selects_the_highest_revealed_bid() {
    let (platform, profile) = setup(500);
    let mut slot = sealed_slot(&profile);
    let mut store = init_commit_store(4).unwrap();
    let salt_v = vec![7u8; 16];
    let salt_w = vec![8u8; 16];
    commit_bid(&slot, &mut store, VERA, 300, &salt_v);
    commit_bid(&slot, &mut store, WALT, 400, &salt_w);
    bid_reveal(&slot, &mut store, VERA, 300, &salt_v).unwrap();
    bid_reveal(&slot, &mut store, WALT, 400, &salt_w).unwrap();

    let mut escrow = Escrow { amount_locked: 400, buyer: None };
    assert_eq!(
        sealed_auction_end(&platform, &profile, &mut slot, &mut escrow, &store, 1999).unwrap_err(),
        ErrorCode::TooEarly
    );
    let outcome =
        sealed_auction_end(&platform, &profile, &mut slot, &mut escrow, &store, 2000).unwrap();
    assert_eq!(outcome.winner, WALT);
    assert_eq!(outcome.winning_bid, 400);
    assert_eq!(outcome.payout.creator_amount, 152);
    assert_eq!(outcome.payout.fee_amount, 8);
    assert_eq!(escrow.amount_locked, 240);
    assert_eq!(escrow.buyer, Some(WALT));
    assert_eq!(slot.state, SlotState::Locked);
}

#[test]
fn sealed_end_breaks_ties_by_first_commit() {
    let (platform, profile) = setup(500);
    let mut slot = sealed_slot(&profile);
    let mut store = init_commit_store(4).unwrap();
    let salt_v = vec![7u8; 16];
    let salt_w = vec![8u8; 16];
    commit_bid(&slot, &mut store, VERA, 400, &salt_v);
    commit_bid(&slot, &mut store, WALT, 400, &salt_w);
    bid_reveal(&slot, &mut store, VERA, 400, &salt_v).unwrap();
    bid_reveal(&slot, &mut store, WALT, 400, &salt_w).unwrap();

    let mut escrow = Escrow { amount_locked: 400, buyer: None };
    let outcome =
        sealed_auction_end(&platform, &profile, &mut slot, &mut escrow, &store, 2000).unwrap();
    assert_eq!(outcome.winner, VERA);
}

#[test]
fn sealed_end_ignores_unrevealed_commitments() {
    let (platform, profile) = setup(500);
    let mut slot = sealed_slot(&profile);
    let mut store = init_commit_store(4).unwrap();
    let salt = vec![7u8; 16];
    commit_bid(&slot, &mut store, VERA, 300, &salt);

    let mut escrow = init_escrow();
    assert_eq!(
        sealed_auction_end(&platform, &profile, &mut slot, &mut escrow, &store, 2000).unwrap_err(),
        ErrorCode::NoBids
    );
}

#[test]
fn sealed_end_checks_the_escrow_balance() {
    let (platform, profile) = setup(500);
    let mut slot = sealed_slot(&profile);
    let mut store = init_commit_store(4).unwrap();
    let salt = vec![7u8; 16];
    commit_bid(&slot, &mut store, VERA, 300, &salt);
    bid_reveal(&slot, &mut store, VERA, 300, &salt).unwrap();

    let mut escrow = Escrow { amount_locked: 299, buyer: None };
    assert_eq!(
        sealed_auction_end(&platform, &profile, &mut slot, &mut escrow, &store, 2000).unwrap_err(),
        ErrorCode::InvalidEscrowBalance
    );
    assert_eq!(escrow.amount_locked, 299);
    assert_eq!(slot.state, SlotState::Open);
}

/// The sealed final milestone settles the entire remaining escrow as its
/// base: 98% released, the rest withheld.
#[test]
fn sealed_settle_disburses_the_remaining_escrow() {
    let (platform, profile) = setup(500);
    let mut slot = sealed_slot(&profile);
    let mut store = init_commit_store(4).unwrap();
    let salt = vec![8u8; 16];
    commit_bid(&slot, &mut store, WALT, 400, &salt);
    bid_reveal(&slot, &mut store, WALT, 400, &salt).unwrap();

    let mut escrow = Escrow { amount_locked: 400, buyer: None };
    sealed_auction_end(&platform, &profile, &mut slot, &mut escrow, &store, 2000).unwrap();
    assert_eq!(escrow.amount_locked, 240);

    auction_checkin(&mut slot, &escrow, WALT).unwrap();
    assert_eq!(slot.state, SlotState::Completed);

    let t1 = sealed_auction_settle(&platform, &profile, &mut slot, &mut escrow).unwrap();
    assert_eq!(t1.creator_amount, 223);
    assert_eq!(t1.fee_amount, 12);
    assert_eq!(t1.withheld_amount, 5);
    assert_eq!(t1.creator_amount + t1.fee_amount + t1.withheld_amount, 240);
    assert_eq!(escrow.amount_locked, 0);
    assert_eq!(slot.state, SlotState::Settled);
}

#[test]
fn sealed_settle_requires_completion() {
    let (platform, profile) = setup(500);
    let mut slot = sealed_slot(&profile);
    let mut escrow = Escrow { amount_locked: 240, buyer: Some(WALT) };
    slot.state = SlotState::Locked;
    assert_eq!(
        sealed_auction_settle(&platform, &profile, &mut slot, &mut escrow).unwrap_err(),
        ErrorCode::InvalidState
    );
    assert_eq!(escrow.amount_locked, 240);
}
