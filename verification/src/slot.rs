//! The sellable time slot and its lifecycle state machine.

use vstd::prelude::*;

use crate::errors::ErrorCode;
use crate::market::CreatorProfile;
use crate::{AccountId, BPS_DENOM};

verus! {

/// How a slot is sold.
#[derive(Clone, Copy, Debug, PartialEq, Eq, Structural)]
pub enum Mode {
    /// Fixed price, reserved directly by a buyer.
    Stable,
    /// Open-outcry ascending auction with an outbid-refund queue.
    EnglishAuction,
    /// Commit-reveal auction with hash commitments.
    SealedBid,
}

/// Lifecycle state of a slot.
#[derive(Clone, Copy, Debug, PartialEq, Eq, Structural)]
pub enum SlotState {
    /// Created but not yet offered; no operation of this revision uses it.
    Draft,
    /// Offered for reservation or bidding.
    Open,
    /// A buyer's payment is locked in escrow.
    Reserved,
    /// An English auction is accepting bids.
    AuctionLive,
    /// The T0 milestone is paid out.
    Locked,
    /// The buyer checked in; the final milestone may be settled.
    Completed,
    /// Fully settled; terminal.
    Settled,
    /// Escrow returned to the buyer; terminal.
    Refunded,
    /// Closed without a buyer; terminal.
    Closed,
}

/// The three states no operation may transition out of.
pub open spec fn is_terminal(s: SlotState) -> bool {
    s is Settled || s is Refunded || s is Closed
}

/// Parameters of `create_time_slot`.
#[derive(Debug)]
pub struct CreateSlotParams {
    /// When the session starts; also the T0 deadline for a stable slot.
    pub start_ts: i64,
    /// When the session ends.
    pub end_ts: i64,
    /// Timezone offset of the session, in minutes.
    pub tz_offset_min: i16,
    /// Opaque digest identifying the subject without revealing it.
    pub subject_hash: Vec<u8>,
    /// Opaque digest identifying the venue without revealing it.
    pub venue_hash: Vec<u8>,
    /// How the slot is sold.
    pub mode: Mode,
    /// Number of units offered; auctions only support one.
    pub capacity: u16,
    /// Collectible minted to the buyer on check-in, when configured.
    pub nft_mint: Option<AccountId>,
    /// Fixed price of a stable slot, or the starting price of an auction.
    pub price: u64,
    /// Minimum bid increment over the highest bid, in basis points.
    pub min_increment_bps: u16,
    /// Price at which an English auction sells instantly, when configured.
    pub buy_now: Option<u64>,
    /// When bidding may start; required for auction modes.
    pub auction_start_ts: Option<i64>,
    /// When bidding ends; required for auction modes.
    pub auction_end_ts: Option<i64>,
    /// Anti-snipe window: a bid this close to the end extends the auction.
    pub anti_sniping_sec: Option<u32>,
}

/// The sellable unit.
#[derive(Debug)]
pub struct TimeSlot {
    /// Profile record of the creator selling this slot.
    pub creator_profile: AccountId,
    /// Identity whose signature acts for the creator.
    pub creator_authority: AccountId,
    /// The platform this slot is sold on.
    pub platform: AccountId,
    /// The asset this slot is priced in.
    pub mint: AccountId,
    /// When the session starts; also the T0 deadline for a stable slot.
    pub start_ts: i64,
    /// When the session ends.
    pub end_ts: i64,
    /// Timezone offset of the session, in minutes.
    pub tz_offset_min: i16,
    /// Opaque digest identifying the subject without revealing it.
    pub subject_hash: Vec<u8>,
    /// Opaque digest identifying the venue without revealing it.
    pub venue_hash: Vec<u8>,
    /// How the slot is sold.
    pub mode: Mode,
    /// Lifecycle state.
    pub state: SlotState,
    /// Set while a dispute blocks settlement and cancellation.
    pub frozen: bool,
    /// Set once the buyer has checked in.
    pub buyer_checked_in: bool,
    /// Number of units offered.
    pub capacity_total: u16,
    /// Number of units sold so far; never exceeds the total.
    pub capacity_sold: u16,
    /// Collectible minted to the buyer on check-in, when configured.
    pub nft_mint: Option<AccountId>,
    /// Fixed price of a stable slot, or the starting price of an auction.
    pub price: u64,
    /// Minimum bid increment over the highest bid, in basis points.
    pub min_increment_bps: u16,
    /// Price at which an English auction sells instantly, when configured.
    pub buy_now: Option<u64>,
    /// When bidding may start; present for auction modes.
    pub auction_start_ts: Option<i64>,
    /// When bidding ends; present for auction modes.
    pub auction_end_ts: Option<i64>,
    /// Anti-snipe window: a bid this close to the end extends the auction.
    pub anti_sniping_sec: Option<u32>,
    /// Sum of session tips attached to this slot.
    pub total_tips_received: u64,
}

/// What every operation preserves of a slot: capacity sold never exceeds
/// the total, rates stay at most one whole, auction modes keep a single
/// unit and a nonempty bidding window, and a frozen slot is never in a
/// terminal state.
pub open spec fn slot_wf(s: TimeSlot) -> bool {
    &&& s.capacity_sold <= s.capacity_total
    &&& 1 <= s.capacity_total
    &&& s.min_increment_bps <= BPS_DENOM
    &&& s.start_ts < s.end_ts
    &&& (s.mode is Stable ==> s.price > 0)
    &&& ((s.mode is EnglishAuction || s.mode is SealedBid) ==> {
        &&& s.capacity_total == 1
        &&& s.auction_start_ts is Some
        &&& s.auction_end_ts is Some
        &&& s.auction_start_ts->0 < s.auction_end_ts->0
    })
    &&& (s.frozen ==> !is_terminal(s.state))
}

/// The T0 deadline of a slot: the session start for a stable slot, the
/// auction end otherwise.
pub open spec fn spec_t0_ts(s: TimeSlot) -> int {
    match s.mode {
        Mode::Stable => s.start_ts as int,
        Mode::EnglishAuction | Mode::SealedBid => match s.auction_end_ts {
            Some(e) => e as int,
            None => s.start_ts as int,
        },
    }
}

/// Compute the T0 deadline of a slot.
pub fn t0_ts(slot: &TimeSlot) -> (r: i64)
    ensures
        r as int == spec_t0_ts(*slot),
{
    match slot.mode {
        Mode::Stable => slot.start_ts,
        Mode::EnglishAuction | Mode::SealedBid => match slot.auction_end_ts {
            Some(e) => e,
            None => slot.start_ts,
        },
    }
}

/// Validation of `create_time_slot`, with the error each rejected input
/// produces.
pub open spec fn create_slot_check(params: CreateSlotParams) -> Result<(), ErrorCode> {
    if !(params.start_ts < params.end_ts) {
        Err(ErrorCode::InvalidTimes)
    } else if !(params.capacity > 0) {
        Err(ErrorCode::InvalidCapacity)
    } else if !(params.min_increment_bps <= BPS_DENOM) {
        Err(ErrorCode::InvalidBps)
    } else if params.mode is Stable {
        if params.price > 0 {
            Ok(())
        } else {
            Err(ErrorCode::InvalidPrice)
        }
    } else if !(params.capacity == 1) {
        Err(ErrorCode::MultiCapacityUnsupported)
    } else if params.auction_start_ts is None {
        Err(ErrorCode::MissingAuctionWindow)
    } else if params.auction_end_ts is None {
        Err(ErrorCode::MissingAuctionWindow)
    } else if !(params.auction_start_ts->0 < params.auction_end_ts->0) {
        Err(ErrorCode::InvalidTimes)
    } else {
        Ok(())
    }
}

/// The slot that `create_time_slot` builds from accepted parameters.
pub open spec fn new_slot_spec(
    profile: CreatorProfile,
    profile_id: AccountId,
    platform: AccountId,
    mint: AccountId,
    params: CreateSlotParams,
) -> TimeSlot {
    TimeSlot {
        creator_profile: profile_id,
        creator_authority: profile.authority,
        platform,
        mint,
        start_ts: params.start_ts,
        end_ts: params.end_ts,
        tz_offset_min: params.tz_offset_min,
        subject_hash: params.subject_hash,
        venue_hash: params.venue_hash,
        mode: params.mode,
        state: SlotState::Open,
        frozen: false,
        buyer_checked_in: false,
        capacity_total: params.capacity,
        capacity_sold: 0,
        nft_mint: params.nft_mint,
        price: params.price,
        min_increment_bps: params.min_increment_bps,
        buy_now: params.buy_now,
        auction_start_ts: params.auction_start_ts,
        auction_end_ts: params.auction_end_ts,
        anti_sniping_sec: params.anti_sniping_sec,
        total_tips_received: 0,
    }
}

/// Create a slot in the `Open` state after validating its parameters:
/// the session window must be nonempty, the capacity positive, the
/// increment at most one whole; a stable slot needs a positive price, and
/// an auction slot needs a single unit and a nonempty bidding window.
pub fn create_time_slot(
    profile: &CreatorProfile,
    profile_id: AccountId,
    platform: AccountId,
    mint: AccountId,
    params: CreateSlotParams,
) -> (r: Result<TimeSlot, ErrorCode>)
    ensures
        create_slot_check(params) matches Err(e) ==> r == Err::<TimeSlot, ErrorCode>(e),
        create_slot_check(params) is Ok ==> r == Ok::<TimeSlot, ErrorCode>(
            new_slot_spec(*profile, profile_id, platform, mint, params),
        ),
        r matches Ok(s) ==> slot_wf(s) && s.state is Open,
{
    if !(params.start_ts < params.end_ts) {
        return Err(ErrorCode::InvalidTimes);
    }
    if !(params.capacity > 0) {
        return Err(ErrorCode::InvalidCapacity);
    }
    if !(params.min_increment_bps <= 10_000) {
        return Err(ErrorCode::InvalidBps);
    }
    match params.mode {
        Mode::Stable => {
            if !(params.price > 0) {
                return Err(ErrorCode::InvalidPrice);
            }
        },
        Mode::EnglishAuction | Mode::SealedBid => {
            if !(params.capacity == 1) {
                return Err(ErrorCode::MultiCapacityUnsupported);
            }
            let start = match params.auction_start_ts {
                Some(t) => t,
                None => {
                    return Err(ErrorCode::MissingAuctionWindow);
                },
            };
            let end = match params.auction_end_ts {
                Some(t) => t,
                None => {
                    return Err(ErrorCode::MissingAuctionWindow);
                },
            };
            if !(start < end) {
                return Err(ErrorCode::InvalidTimes);
            }
        },
    }
    let creator_authority = profile.authority;
    Ok(
        TimeSlot {
            creator_profile: profile_id,
            creator_authority,
            platform,
            mint,
            start_ts: params.start_ts,
            end_ts: params.end_ts,
            tz_offset_min: params.tz_offset_min,
            subject_hash: params.subject_hash,
            venue_hash: params.venue_hash,
            mode: params.mode,
            state: SlotState::Open,
            frozen: false,
            buyer_checked_in: false,
            capacity_total: params.capacity,
            capacity_sold: 0,
            nft_mint: params.nft_mint,
            price: params.price,
            min_increment_bps: params.min_increment_bps,
            buy_now: params.buy_now,
            auction_start_ts: params.auction_start_ts,
            auction_end_ts: params.auction_end_ts,
            anti_sniping_sec: params.anti_sniping_sec,
            total_tips_received: 0,
        },
    )
}

} // verus!
