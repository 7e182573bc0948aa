//! The English auction engine: bid book, outbid-refund queue, proxy
//! auto-bid store, and the auction lifecycle operations.

use vstd::prelude::*;

use crate::errors::ErrorCode;
use crate::escrow::Escrow;
use crate::fees::{
    compute_t0_payout, compute_t1_payout, effective_fee_bps, eff_fee_bps, lemma_mul_bps_bound,
    mul_bps, mul_bps_le_denom, spec_t0_creator, spec_t0_fee, spec_t1_base, spec_t1_creator,
    spec_t1_fee, spec_t1_release, spec_t1_withhold, T0Payout, T1Payout,
};
use crate::market::{platform_wf, profile_wf, CreatorProfile, Platform};
use crate::slot::{is_terminal, slot_wf, Mode, SlotState, TimeSlot};
use crate::{AccountId, AUCTION_T0_BPS, BPS_DENOM};

verus! {

/// The current highest bid of an English auction.
#[derive(Clone, Copy, Debug)]
pub struct BidBook {
    /// Highest accepted bid; zero while no bid was placed.
    pub highest_bid: u64,
    /// Bidder holding the highest bid; meaningful only when `highest_bid`
    /// is positive.
    pub highest_bidder: AccountId,
    /// The minimum the last accepted bid had to meet, kept for display.
    pub next_min_bid: u64,
    /// When the last bid was accepted.
    pub last_bid_ts: i64,
}

/// Create the empty bid book that accompanies an auction slot.
pub fn init_bid_book() -> (b: BidBook)
    ensures
        b.highest_bid == 0,
        b.highest_bidder == 0,
        b.next_min_bid == 0,
        b.last_bid_ts == 0,
{
    BidBook { highest_bid: 0, highest_bidder: 0, next_min_bid: 0, last_bid_ts: 0 }
}

/// An amount owed back to an outbid bidder.
#[derive(Clone, Copy, Debug, PartialEq, Eq, Structural)]
pub struct RefundEntry {
    /// Who is owed the refund.
    pub bidder: AccountId,
    /// How much they are owed.
    pub amount: u64,
}

/// FIFO of refunds owed to outbid bidders.  Entries are appended when a
/// bid is displaced and consumed from `cursor` when a refund is executed,
/// so a stuck refund never blocks further bidding.
#[derive(Debug)]
pub struct RefundQueue {
    /// Upper bound on queued (unconsumed) entries.
    pub max_entries: u16,
    /// Number of queued entries not yet consumed.
    pub count: u16,
    /// Index of the next entry to consume.
    pub cursor: u16,
    /// All entries ever enqueued; the consumed prefix is kept.
    pub entries: Vec<RefundEntry>,
}

/// What every operation preserves of a refund queue: the entries split
/// exactly into a consumed prefix and `count` queued ones, the queued
/// part stays within its bound, and the whole log stays addressable by a
/// 16-bit cursor.
pub open spec fn queue_wf(q: RefundQueue) -> bool {
    &&& q.entries.len() == q.cursor + q.count
    &&& q.count <= q.max_entries
    &&& q.entries.len() <= u16::MAX
}

/// Create the empty refund queue that accompanies an auction slot,
/// rejecting a zero bound.
pub fn init_refund_queue(max_entries: u16) -> (r: Result<RefundQueue, ErrorCode>)
    ensures
        max_entries == 0 ==> r == Err::<RefundQueue, ErrorCode>(ErrorCode::InvalidCapacity),
        max_entries > 0 ==> (r matches Ok(q) && q.max_entries == max_entries && q.count == 0
            && q.cursor == 0 && q.entries@ =~= Seq::<RefundEntry>::empty() && queue_wf(q)),
{
    if max_entries == 0 {
        return Err(ErrorCode::InvalidCapacity);
    }
    Ok(RefundQueue { max_entries, count: 0, cursor: 0, entries: Vec::new() })
}

/// A standing proxy-bid ceiling registered by a bidder.
#[derive(Clone, Copy, Debug, PartialEq, Eq, Structural)]
pub struct AutoBidEntry {
    /// Who registered the ceiling.
    pub bidder: AccountId,
    /// The most the engine may bid on their behalf.
    pub max_bid: u64,
}

/// Per-slot table of proxy-bid ceilings, one entry per bidder.
#[derive(Debug)]
pub struct AutoBidStore {
    /// Upper bound on entries.
    pub max_entries: u16,
    /// Number of entries.
    pub count: u16,
    /// The registered ceilings.
    pub entries: Vec<AutoBidEntry>,
}

/// What every operation preserves of an auto-bid store: the count matches
/// the entries, stays within its bound, and each bidder appears at most
/// once.
pub open spec fn auto_bid_store_wf(s: AutoBidStore) -> bool {
    &&& s.entries.len() == s.count
    &&& s.count <= s.max_entries
    &&& forall|i: int, j: int|
        0 <= i < j < s.entries.len() ==> s.entries[i].bidder != s.entries[j].bidder
}

/// Create the empty auto-bid store that accompanies an auction slot,
/// rejecting a zero bound.
pub fn init_auto_bid_store(max_entries: u16) -> (r: Result<AutoBidStore, ErrorCode>)
    ensures
        max_entries == 0 ==> r == Err::<AutoBidStore, ErrorCode>(ErrorCode::InvalidCapacity),
        max_entries > 0 ==> (r matches Ok(s) && s.max_entries == max_entries && s.count == 0
            && s.entries@ =~= Seq::<AutoBidEntry>::empty() && auto_bid_store_wf(s)),
{
    if max_entries == 0 {
        return Err(ErrorCode::InvalidCapacity);
    }
    Ok(AutoBidStore { max_entries, count: 0, entries: Vec::new() })
}

/// Validation of `auction_start`.
pub open spec fn auction_start_check(slot: TimeSlot, creator: AccountId, now: i64) -> Result<
    (),
    ErrorCode,
> {
    if slot.frozen {
        Err(ErrorCode::Frozen)
    } else if !(slot.mode is EnglishAuction) {
        Err(ErrorCode::WrongMode)
    } else if !(slot.capacity_total == 1) {
        Err(ErrorCode::MultiCapacityUnsupported)
    } else if !(slot.state is Open) {
        Err(ErrorCode::InvalidState)
    } else if slot.creator_authority != creator {
        Err(ErrorCode::Unauthorized)
    } else if slot.auction_start_ts is None {
        Err(ErrorCode::MissingAuctionWindow)
    } else if (now as int) < slot.auction_start_ts->0 {
        Err(ErrorCode::TooEarly)
    } else {
        Ok(())
    }
}

/// Open bidding on an English auction slot: creator-only, from `Open`,
/// at or after the auction's start time.
pub fn auction_start(slot: &mut TimeSlot, creator: AccountId, now: i64) -> (r: Result<
    (),
    ErrorCode,
>)
    requires
        slot_wf(*old(slot)),
    ensures
        r == auction_start_check(*old(slot), creator, now),
        r is Ok ==> *final(slot) == (TimeSlot { state: SlotState::AuctionLive, ..*old(slot) }),
        r is Err ==> *final(slot) == *old(slot),
        is_terminal(old(slot).state) ==> r is Err,
        old(slot).frozen ==> r is Err,
        slot_wf(*final(slot)),
{
    if slot.frozen {
        return Err(ErrorCode::Frozen);
    }
    if slot.mode != Mode::EnglishAuction {
        return Err(ErrorCode::WrongMode);
    }
    if slot.capacity_total != 1 {
        return Err(ErrorCode::MultiCapacityUnsupported);
    }
    if slot.state != SlotState::Open {
        return Err(ErrorCode::InvalidState);
    }
    if slot.creator_authority != creator {
        return Err(ErrorCode::Unauthorized);
    }
    let start = match slot.auction_start_ts {
        Some(t) => t,
        None => {
            return Err(ErrorCode::MissingAuctionWindow);
        },
    };
    if now < start {
        return Err(ErrorCode::TooEarly);
    }
    slot.state = SlotState::AuctionLive;
    Ok(())
}

/// Validation of `auction_update_end`.
pub open spec fn auction_update_end_check(slot: TimeSlot, creator: AccountId, now: i64, new_end_ts: i64) -> Result<
    (),
    ErrorCode,
> {
    if slot.frozen {
        Err(ErrorCode::Frozen)
    } else if !(slot.mode is EnglishAuction) {
        Err(ErrorCode::WrongMode)
    } else if slot.creator_authority != creator {
        Err(ErrorCode::Unauthorized)
    } else if new_end_ts <= now {
        Err(ErrorCode::InvalidTimes)
    } else if slot.auction_start_ts matches Some(start) && new_end_ts <= start {
        Err(ErrorCode::InvalidTimes)
    } else if slot.state is Open {
        Ok(())
    } else if slot.state is AuctionLive {
        if slot.auction_end_ts is None {
            Err(ErrorCode::MissingAuctionWindow)
        } else if new_end_ts <= slot.auction_end_ts->0 {
            Err(ErrorCode::TooEarly)
        } else {
            Ok(())
        }
    } else {
        Err(ErrorCode::InvalidState)
    }
}

/// Move the end of an English auction: creator-only; before the auction
/// is live the end may be set freely (in the future, after the start);
/// once live it may only be extended, never shortened.
pub fn auction_update_end(slot: &mut TimeSlot, creator: AccountId, now: i64, new_end_ts: i64) -> (r:
    Result<(), ErrorCode>)
    requires
        slot_wf(*old(slot)),
    ensures
        r == auction_update_end_check(*old(slot), creator, now, new_end_ts),
        r is Ok ==> *final(slot) == (TimeSlot {
            auction_end_ts: Some(new_end_ts),
            ..*old(slot)
        }),
        r is Err ==> *final(slot) == *old(slot),
        is_terminal(old(slot).state) ==> r is Err,
        old(slot).frozen ==> r is Err,
        slot_wf(*final(slot)),
{
    if slot.frozen {
        return Err(ErrorCode::Frozen);
    }
    if slot.mode != Mode::EnglishAuction {
        return Err(ErrorCode::WrongMode);
    }
    if slot.creator_authority != creator {
        return Err(ErrorCode::Unauthorized);
    }
    if new_end_ts <= now {
        return Err(ErrorCode::InvalidTimes);
    }
    if let Some(start) = slot.auction_start_ts {
        if new_end_ts <= start {
            return Err(ErrorCode::InvalidTimes);
        }
    }
    match slot.state {
        SlotState::Open => {
            slot.auction_end_ts = Some(new_end_ts);
            Ok(())
        },
        SlotState::AuctionLive => {
            let prev = match slot.auction_end_ts {
                Some(t) => t,
                None => {
                    return Err(ErrorCode::MissingAuctionWindow);
                },
            };
            if new_end_ts <= prev {
                return Err(ErrorCode::TooEarly);
            }
            slot.auction_end_ts = Some(new_end_ts);
            Ok(())
        },
        _ => Err(ErrorCode::InvalidState),
    }
}

/// Validation of `auction_checkin`.
pub open spec fn auction_checkin_check(slot: TimeSlot, escrow: Escrow, signer: AccountId) -> Result<
    (),
    ErrorCode,
> {
    if slot.frozen {
        Err(ErrorCode::Frozen)
    } else if !(slot.mode is EnglishAuction || slot.mode is SealedBid) {
        Err(ErrorCode::WrongMode)
    } else if !(slot.capacity_total == 1) {
        Err(ErrorCode::MultiCapacityUnsupported)
    } else if !(slot.state is Locked || slot.state is Reserved) {
        Err(ErrorCode::InvalidState)
    } else if escrow.buyer is None {
        Err(ErrorCode::NotReserved)
    } else if escrow.buyer->0 != signer && slot.creator_authority != signer {
        Err(ErrorCode::Unauthorized)
    } else {
        Ok(())
    }
}

/// Record the winner's check-in on an auction slot: callable by the bound
/// winner or the creator; the slot moves to `Completed`, enabling the
/// final settlement.
pub fn auction_checkin(slot: &mut TimeSlot, escrow: &Escrow, signer: AccountId) -> (r: Result<
    (),
    ErrorCode,
>)
    requires
        slot_wf(*old(slot)),
    ensures
        r == auction_checkin_check(*old(slot), *escrow, signer),
        r is Ok ==> *final(slot) == (TimeSlot {
            state: SlotState::Completed,
            buyer_checked_in: true,
            ..*old(slot)
        }),
        r is Err ==> *final(slot) == *old(slot),
        is_terminal(old(slot).state) ==> r is Err,
        old(slot).frozen ==> r is Err,
        slot_wf(*final(slot)),
{
    if slot.frozen {
        return Err(ErrorCode::Frozen);
    }
    if !(slot.mode == Mode::EnglishAuction || slot.mode == Mode::SealedBid) {
        return Err(ErrorCode::WrongMode);
    }
    if slot.capacity_total != 1 {
        return Err(ErrorCode::MultiCapacityUnsupported);
    }
    if !(slot.state == SlotState::Locked || slot.state == SlotState::Reserved) {
        return Err(ErrorCode::InvalidState);
    }
    let buyer = match escrow.buyer {
        Some(b) => b,
        None => {
            return Err(ErrorCode::NotReserved);
        },
    };
    if !(signer == buyer || signer == slot.creator_authority) {
        return Err(ErrorCode::Unauthorized);
    }
    slot.buyer_checked_in = true;
    slot.state = SlotState::Completed;
    Ok(())
}

/// Validation and result of `bid_outbid_refund`: the queued entry owed to
/// the claimant at the queue's cursor.
pub open spec fn bid_outbid_refund_check(
    slot: TimeSlot,
    queue: RefundQueue,
    escrow: Escrow,
    claimant: AccountId,
) -> Result<u64, ErrorCode> {
    if slot.frozen {
        Err(ErrorCode::Frozen)
    } else if queue.count == 0 {
        Err(ErrorCode::NothingToRefund)
    } else if queue.entries[queue.cursor as int].bidder != claimant {
        Err(ErrorCode::Unauthorized)
    } else if queue.entries[queue.cursor as int].amount > escrow.amount_locked {
        Err(ErrorCode::Overflow)
    } else {
        Ok(queue.entries[queue.cursor as int].amount)
    }
}

/// Pay the refund at the queue's cursor: strictly FIFO, only to the owed
/// bidder, decrementing the escrow by exactly the owed amount and
/// advancing the cursor.  The host must move the returned amount from
/// escrow to the claimant exactly when this returns `Ok`.
pub fn bid_outbid_refund(
    slot: &TimeSlot,
    queue: &mut RefundQueue,
    escrow: &mut Escrow,
    claimant: AccountId,
) -> (r: Result<u64, ErrorCode>)
    requires
        queue_wf(*old(queue)),
    ensures
        r == bid_outbid_refund_check(*slot, *old(queue), *old(escrow), claimant),
        r matches Ok(amount) ==> *final(queue) == (RefundQueue {
            cursor: (old(queue).cursor + 1) as u16,
            count: (old(queue).count - 1) as u16,
            ..*old(queue)
        }) && *final(escrow) == (Escrow {
            amount_locked: (old(escrow).amount_locked - amount) as u64,
            ..*old(escrow)
        }),
        r is Err ==> *final(queue) == *old(queue) && *final(escrow) == *old(escrow),
        slot.frozen ==> r is Err,
        queue_wf(*final(queue)),
{
    if slot.frozen {
        return Err(ErrorCode::Frozen);
    }
    if queue.count == 0 {
        return Err(ErrorCode::NothingToRefund);
    }
    let idx = queue.cursor as usize;
    let entry = queue.entries[idx];
    if entry.bidder != claimant {
        return Err(ErrorCode::Unauthorized);
    }
    let new_locked = match escrow.amount_locked.checked_sub(entry.amount) {
        Some(v) => v,
        None => {
            return Err(ErrorCode::Overflow);
        },
    };
    escrow.amount_locked = new_locked;
    queue.cursor = queue.cursor + 1;
    queue.count = queue.count - 1;
    Ok(entry.amount)
}

/// How an auction concluded: the winner bound to the escrow, the winning
/// bid, and the T0 payout released on the spot.
#[derive(Clone, Copy, Debug, PartialEq, Eq, Structural)]
pub struct AuctionEndOutcome {
    /// The bidder bound to the escrow as buyer.
    pub winner: AccountId,
    /// The bid the winner pays.
    pub winning_bid: u64,
    /// The T0 milestone paid out of escrow at conclusion.
    pub payout: T0Payout,
}

/// Validation and result of `auction_end`.
pub open spec fn auction_end_check(
    platform: Platform,
    profile: CreatorProfile,
    slot: TimeSlot,
    book: BidBook,
    escrow: Escrow,
    now: i64,
) -> Result<AuctionEndOutcome, ErrorCode> {
    let fee = eff_fee_bps(platform, profile);
    if slot.frozen {
        Err(ErrorCode::Frozen)
    } else if !(slot.mode is EnglishAuction) {
        Err(ErrorCode::WrongMode)
    } else if !(slot.capacity_total == 1) {
        Err(ErrorCode::MultiCapacityUnsupported)
    } else if !(slot.state is AuctionLive) {
        Err(ErrorCode::InvalidState)
    } else if slot.auction_end_ts is None {
        Err(ErrorCode::MissingAuctionWindow)
    } else if (now as int) < slot.auction_end_ts->0 {
        Err(ErrorCode::TooEarly)
    } else if book.highest_bid == 0 {
        Err(ErrorCode::NoBids)
    } else if escrow.amount_locked != book.highest_bid {
        Err(ErrorCode::InvalidEscrowBalance)
    } else {
        Ok(
            AuctionEndOutcome {
                winner: book.highest_bidder,
                winning_bid: book.highest_bid,
                payout: T0Payout {
                    creator_amount: spec_t0_creator(
                        book.highest_bid as int,
                        fee,
                        AUCTION_T0_BPS as int,
                    ) as u64,
                    fee_amount: spec_t0_fee(
                        book.highest_bid as int,
                        fee,
                        AUCTION_T0_BPS as int,
                    ) as u64,
                },
            },
        )
    }
}

/// End an English auction at or after its end time, with at least one
/// bid and the escrow holding exactly the highest bid: binds the highest
/// bidder as the escrow's buyer, releases the T0 milestone (40% of the
/// winning bid, fee pro rata), and moves the slot to `Locked`.  The host
/// must pay the returned amounts out of escrow exactly when this returns
/// `Ok`, and mint the configured collectible if any.
///
/// The refund queue need not be empty, but every queued refund still
/// locked in escrow makes the balance check fail: unclaimed outbid
/// refunds must be paid out before the auction can conclude.
pub fn auction_end(
    platform: &Platform,
    profile: &CreatorProfile,
    slot: &mut TimeSlot,
    book: &BidBook,
    escrow: &mut Escrow,
    now: i64,
) -> (r: Result<AuctionEndOutcome, ErrorCode>)
    requires
        slot_wf(*old(slot)),
        platform_wf(*platform),
        profile_wf(*profile),
    ensures
        r == auction_end_check(*platform, *profile, *old(slot), *book, *old(escrow), now),
        r matches Ok(o) ==> *final(slot) == (TimeSlot { state: SlotState::Locked, ..*old(slot) })
            && *final(escrow) == (Escrow {
            amount_locked: (old(escrow).amount_locked - o.payout.creator_amount
                - o.payout.fee_amount) as u64,
            buyer: Some(o.winner),
        }),
        r is Err ==> *final(slot) == *old(slot) && *final(escrow) == *old(escrow),
        is_terminal(old(slot).state) ==> r is Err,
        old(slot).frozen ==> r is Err,
        slot_wf(*final(slot)),
{
    if slot.frozen {
        return Err(ErrorCode::Frozen);
    }
    if slot.mode != Mode::EnglishAuction {
        return Err(ErrorCode::WrongMode);
    }
    if slot.capacity_total != 1 {
        return Err(ErrorCode::MultiCapacityUnsupported);
    }
    if slot.state != SlotState::AuctionLive {
        return Err(ErrorCode::InvalidState);
    }
    let end = match slot.auction_end_ts {
        Some(t) => t,
        None => {
            return Err(ErrorCode::MissingAuctionWindow);
        },
    };
    if now < end {
        return Err(ErrorCode::TooEarly);
    }
    if book.highest_bid == 0 {
        return Err(ErrorCode::NoBids);
    }
    if escrow.amount_locked != book.highest_bid {
        return Err(ErrorCode::InvalidEscrowBalance);
    }
    let fee = effective_fee_bps(platform, profile);
    let p = compute_t0_payout(book.highest_bid, fee, AUCTION_T0_BPS);
    escrow.amount_locked = escrow.amount_locked - (p.creator_amount + p.fee_amount);
    escrow.buyer = Some(book.highest_bidder);
    slot.state = SlotState::Locked;
    Ok(AuctionEndOutcome { winner: book.highest_bidder, winning_bid: book.highest_bid, payout: p })
}

/// Validation and result of `auction_settle`.
pub open spec fn auction_settle_check(
    platform: Platform,
    profile: CreatorProfile,
    slot: TimeSlot,
    book: BidBook,
    escrow: Escrow,
) -> Result<T1Payout, ErrorCode> {
    let fee = eff_fee_bps(platform, profile);
    let t1_base = spec_t1_base(book.highest_bid as int, AUCTION_T0_BPS as int);
    if !(slot.mode is EnglishAuction) {
        Err(ErrorCode::WrongMode)
    } else if slot.frozen {
        Err(ErrorCode::Frozen)
    } else if book.highest_bid == 0 {
        Err(ErrorCode::NoBids)
    } else if !(slot.state is Completed) {
        Err(ErrorCode::InvalidState)
    } else if spec_t1_fee(t1_base, fee) > spec_t1_release(t1_base) {
        Err(ErrorCode::Overflow)
    } else if (escrow.amount_locked as int) < t1_base {
        Err(ErrorCode::InvalidEscrowBalance)
    } else {
        Ok(
            T1Payout {
                creator_amount: spec_t1_creator(t1_base, fee) as u64,
                fee_amount: spec_t1_fee(t1_base, fee) as u64,
                withheld_amount: spec_t1_withhold(t1_base) as u64,
            },
        )
    }
}

/// Settle the final milestone of an English auction from `Completed`:
/// releases 98% of the remaining base (the winning bid minus the T0
/// base) to the creator and fee vault, withholds the rest into the
/// dispute vault, and moves the slot to `Settled`.  The host must pay
/// the returned amounts out of escrow exactly when this returns `Ok`.
pub fn auction_settle(
    platform: &Platform,
    profile: &CreatorProfile,
    slot: &mut TimeSlot,
    book: &BidBook,
    escrow: &mut Escrow,
) -> (r: Result<T1Payout, ErrorCode>)
    requires
        slot_wf(*old(slot)),
        platform_wf(*platform),
        profile_wf(*profile),
    ensures
        r == auction_settle_check(*platform, *profile, *old(slot), *book, *old(escrow)),
        r matches Ok(p) ==> *final(slot) == (TimeSlot { state: SlotState::Settled, ..*old(slot) })
            && *final(escrow) == (Escrow {
            amount_locked: (old(escrow).amount_locked - p.creator_amount - p.fee_amount
                - p.withheld_amount) as u64,
            ..*old(escrow)
        }),
        r is Err ==> *final(slot) == *old(slot) && *final(escrow) == *old(escrow),
        is_terminal(old(slot).state) ==> r is Err,
        old(slot).frozen ==> r is Err,
        slot_wf(*final(slot)),
{
    if slot.mode != Mode::EnglishAuction {
        return Err(ErrorCode::WrongMode);
    }
    if slot.frozen {
        return Err(ErrorCode::Frozen);
    }
    if book.highest_bid == 0 {
        return Err(ErrorCode::NoBids);
    }
    if slot.state != SlotState::Completed {
        return Err(ErrorCode::InvalidState);
    }
    let t0_base = mul_bps_le_denom(book.highest_bid, AUCTION_T0_BPS);
    proof {
        lemma_mul_bps_bound(book.highest_bid as int, AUCTION_T0_BPS as int);
    }
    let t1_base = book.highest_bid - t0_base;
    let fee = effective_fee_bps(platform, profile);
    let p = match compute_t1_payout(t1_base, fee) {
        Ok(p) => p,
        Err(e) => {
            return Err(e);
        },
    };
    let total_out = p.creator_amount + p.fee_amount + p.withheld_amount;
    if escrow.amount_locked < total_out {
        return Err(ErrorCode::InvalidEscrowBalance);
    }
    escrow.amount_locked = escrow.amount_locked - total_out;
    slot.state = SlotState::Settled;
    Ok(p)
}

/// The minimum increment over a highest bid: the scaled amount at the
/// slot's increment rate, and at least one unit.
pub open spec fn spec_min_inc(highest: u64, inc_bps: u16) -> int {
    let m = mul_bps(highest as int, inc_bps as int);
    if m < 1 {
        1
    } else {
        m
    }
}

/// The least acceptable next bid over a positive highest bid.
pub open spec fn spec_next_min(highest: u64, inc_bps: u16) -> int {
    highest as int + spec_min_inc(highest, inc_bps)
}

/// Whether some entry of `entries` belongs to `bidder`.
pub open spec fn has_auto_bid(entries: Seq<AutoBidEntry>, bidder: AccountId) -> bool {
    exists|i: int| 0 <= i < entries.len() && entries[i].bidder == bidder
}

/// The index of `bidder`'s entry; meaningful when `has_auto_bid` holds
/// and the store is well formed, which makes the entry unique.
pub open spec fn auto_bid_index(entries: Seq<AutoBidEntry>, bidder: AccountId) -> int {
    choose|i: int| 0 <= i < entries.len() && entries[i].bidder == bidder
}

/// The store's entries after registering a proxy ceiling: an existing
/// entry of the bidder is updated in place; a new bidder is appended,
/// within the store's bound.
pub open spec fn register_auto_bid_check(
    store: AutoBidStore,
    bidder: AccountId,
    max_auto_bid: Option<u64>,
) -> Result<Seq<AutoBidEntry>, ErrorCode> {
    match max_auto_bid {
        None => Ok(store.entries@),
        Some(m) => if has_auto_bid(store.entries@, bidder) {
            Ok(
                store.entries@.update(
                    auto_bid_index(store.entries@, bidder),
                    AutoBidEntry { bidder, max_bid: m },
                ),
            )
        } else if !(store.count < store.max_entries) {
            Err(ErrorCode::InvalidCapacity)
        } else {
            Ok(store.entries@.push(AutoBidEntry { bidder, max_bid: m }))
        },
    }
}

/// The largest registered ceiling among the first `i` entries, zero when
/// there is none.
pub open spec fn max_ceiling(entries: Seq<AutoBidEntry>, i: nat) -> int
    decreases i,
{
    if i == 0 {
        0
    } else {
        let m = max_ceiling(entries, (i - 1) as nat);
        if entries[i - 1].max_bid > m {
            entries[i - 1].max_bid as int
        } else {
            m
        }
    }
}

/// The best proxy competitor among the first `i` entries: not the
/// current leader, ceiling at least `next_min`, largest ceiling winning,
/// the first-seen entry winning ties.
pub open spec fn competitor_scan(
    entries: Seq<AutoBidEntry>,
    leader: AccountId,
    next_min: int,
    i: nat,
) -> Option<AutoBidEntry>
    decreases i,
{
    if i == 0 {
        None
    } else {
        let prev = competitor_scan(entries, leader, next_min, (i - 1) as nat);
        let e = entries[i - 1];
        if e.bidder != leader && e.max_bid >= next_min {
            match prev {
                None => Some(e),
                Some(b) => if e.max_bid > b.max_bid {
                    Some(e)
                } else {
                    prev
                },
            }
        } else {
            prev
        }
    }
}

/// A chosen competitor clears `next_min` and no ceiling in range exceeds
/// the overall maximum.
pub proof fn lemma_competitor_scan_bounds(
    entries: Seq<AutoBidEntry>,
    leader: AccountId,
    next_min: int,
    i: nat,
)
    requires
        i <= entries.len(),
    ensures
        competitor_scan(entries, leader, next_min, i) matches Some(c) ==> next_min <= c.max_bid
            && c.max_bid <= max_ceiling(entries, i),
    decreases i,
{
    if i > 0 {
        lemma_competitor_scan_bounds(entries, leader, next_min, (i - 1) as nat);
    }
}

/// One round of proxy resolution after a bid: while some other registered
/// bidder's ceiling clears the next minimum, the best such competitor
/// synthetically takes the lead at exactly that minimum, the displaced
/// positive bid is owed back through the refund queue (within `free`
/// remaining queue slots), and the minimum is recomputed — until no
/// ceiling clears it.  No funds move for synthetic bids.
pub open spec fn proxy_rounds(
    entries: Seq<AutoBidEntry>,
    leader: AccountId,
    highest: u64,
    next_min: u64,
    free: int,
    inc_bps: u16,
) -> Result<(AccountId, u64, Seq<RefundEntry>), ErrorCode>
    decreases (if next_min as int <= max_ceiling(entries, entries.len() as nat) {
        max_ceiling(entries, entries.len() as nat) + 1 - next_min as int
    } else {
        0int
    }),
    via proxy_rounds_decreases
{
    match competitor_scan(entries, leader, next_min as int, entries.len() as nat) {
        None => Ok((leader, highest, Seq::<RefundEntry>::empty())),
        Some(comp) => {
            if highest > 0 && free <= 0 {
                Err(ErrorCode::InvalidCapacity)
            } else {
                let new_next = spec_next_min(next_min, inc_bps);
                if new_next > u64::MAX as int {
                    Err(ErrorCode::Overflow)
                } else {
                    let fr = if highest > 0 {
                        seq![(RefundEntry { bidder: leader, amount: highest })]
                    } else {
                        Seq::<RefundEntry>::empty()
                    };
                    let free2 = if highest > 0 {
                        free - 1
                    } else {
                        free
                    };
                    match proxy_rounds(
                        entries,
                        comp.bidder,
                        next_min,
                        new_next as u64,
                        free2,
                        inc_bps,
                    ) {
                        Ok((fl, fh, frs)) => Ok((fl, fh, fr + frs)),
                        Err(e) => Err(e),
                    }
                }
            }
        },
    }
}

#[via_fn]
proof fn proxy_rounds_decreases(
    entries: Seq<AutoBidEntry>,
    leader: AccountId,
    highest: u64,
    next_min: u64,
    free: int,
    inc_bps: u16,
) {
    lemma_competitor_scan_bounds(entries, leader, next_min as int, entries.len() as nat);
}

/// The auction end after the anti-snipe rule: a bid within the window
/// extends the end by the window, failing closed where the extended end
/// cannot be represented.
pub open spec fn anti_snipe_end(slot: TimeSlot, now: i64) -> Result<Option<i64>, ErrorCode> {
    match (slot.auction_end_ts, slot.anti_sniping_sec) {
        (Some(end), Some(ext)) => if end - now <= ext {
            if end + ext > i64::MAX {
                Err(ErrorCode::Overflow)
            } else {
                Ok(Some((end + ext) as i64))
            }
        } else {
            Ok(slot.auction_end_ts)
        },
        _ => Ok(slot.auction_end_ts),
    }
}

/// How many refunds the queue can still take: the tighter of its
/// configured bound and the 16-bit cursor space.
pub open spec fn spec_queue_room(q: RefundQueue) -> int {
    let by_count = q.max_entries - q.count;
    let by_len = u16::MAX - q.entries.len();
    if by_count <= by_len {
        by_count as int
    } else {
        by_len as int
    }
}

/// Everything an accepted `bid_place` changes, as computed by
/// `bid_place_check`.
pub struct BidPlaceNext {
    /// The auction end after the anti-snipe rule.
    pub end_ts: Option<i64>,
    /// The leading bidder after proxy resolution.
    pub leader: AccountId,
    /// The highest bid after proxy resolution.
    pub highest: u64,
    /// The minimum this bid had to meet, recorded in the book.
    pub min_required: u64,
    /// Refunds appended to the queue, displaced explicit bid first.
    pub refunds: Seq<RefundEntry>,
    /// The auto-bid store's entries after registration.
    pub store_entries: Seq<AutoBidEntry>,
}

/// Validation and full result of `bid_place`, with the error each
/// rejected input produces.  An error anywhere — including queue
/// exhaustion or arithmetic overflow during proxy resolution — rejects
/// the whole operation with no effect.
pub open spec fn bid_place_check(
    slot: TimeSlot,
    book: BidBook,
    escrow: Escrow,
    queue: RefundQueue,
    store: AutoBidStore,
    bidder: AccountId,
    bid_amount: u64,
    max_auto_bid: Option<u64>,
    now: i64,
) -> Result<BidPlaceNext, ErrorCode> {
    if slot.frozen {
        Err(ErrorCode::Frozen)
    } else if !(slot.mode is EnglishAuction) {
        Err(ErrorCode::WrongMode)
    } else if !(slot.capacity_total == 1) {
        Err(ErrorCode::MultiCapacityUnsupported)
    } else if !(slot.state is AuctionLive) {
        Err(ErrorCode::InvalidState)
    } else if bidder == slot.creator_authority {
        Err(ErrorCode::Unauthorized)
    } else {
        let min_required = if book.highest_bid == 0 {
            slot.price as int
        } else {
            spec_next_min(book.highest_bid, slot.min_increment_bps)
        };
        if min_required > u64::MAX as int {
            Err(ErrorCode::Overflow)
        } else if (bid_amount as int) < min_required {
            Err(ErrorCode::BidTooLow)
        } else {
            match register_auto_bid_check(store, bidder, max_auto_bid) {
                Err(e) => Err(e),
                Ok(new_entries) => {
                    if book.highest_bid > 0 && !(queue.count < queue.max_entries
                        && queue.entries.len() < u16::MAX) {
                        Err(ErrorCode::InvalidCapacity)
                    } else {
                        let refunds0 = if book.highest_bid > 0 {
                            seq![
                                (RefundEntry {
                                    bidder: book.highest_bidder,
                                    amount: book.highest_bid,
                                }),
                            ]
                        } else {
                            Seq::<RefundEntry>::empty()
                        };
                        match anti_snipe_end(slot, now) {
                            Err(e) => Err(e),
                            Ok(end2) => {
                                if escrow.amount_locked + bid_amount > u64::MAX {
                                    Err(ErrorCode::Overflow)
                                } else {
                                    let next_min0 = if bid_amount == 0 {
                                        slot.price as int
                                    } else {
                                        spec_next_min(bid_amount, slot.min_increment_bps)
                                    };
                                    if next_min0 > u64::MAX as int {
                                        Err(ErrorCode::Overflow)
                                    } else {
                                        let free = spec_queue_room(queue) - refunds0.len();
                                        match proxy_rounds(
                                            new_entries,
                                            bidder,
                                            bid_amount,
                                            next_min0 as u64,
                                            free,
                                            slot.min_increment_bps,
                                        ) {
                                            Err(e) => Err(e),
                                            Ok((fl, fh, frs)) => Ok(
                                                BidPlaceNext {
                                                    end_ts: end2,
                                                    leader: fl,
                                                    highest: fh,
                                                    min_required: min_required as u64,
                                                    refunds: refunds0 + frs,
                                                    store_entries: new_entries,
                                                },
                                            ),
                                        }
                                    }
                                }
                            },
                        }
                    }
                },
            }
        }
    }
}

/// Copy the auto-bid entries into a working vector.
fn copy_auto_bids(entries: &Vec<AutoBidEntry>) -> (r: Vec<AutoBidEntry>)
    ensures
        r@ == entries@,
{
    let n = entries.len();
    let mut v: Vec<AutoBidEntry> = Vec::new();
    let mut i: usize = 0;
    while i < n
        invariant
            i <= n,
            n == entries@.len(),
            v@ == entries@.take(i as int),
        decreases n - i,
    {
        v.push(entries[i]);
        proof {
            assert(v@ =~= entries@.take(i as int + 1));
        }
        i = i + 1;
    }
    proof {
        assert(entries@.take(n as int) =~= entries@);
    }
    v
}

/// Find the index of `bidder`'s ceiling, scanning from the front.
fn find_auto_bid(entries: &Vec<AutoBidEntry>, bidder: AccountId) -> (r: Option<usize>)
    ensures
        match r {
            Some(i) => i < entries@.len() && entries@[i as int].bidder == bidder,
            None => !has_auto_bid(entries@, bidder),
        },
{
    let n = entries.len();
    let mut i: usize = 0;
    while i < n
        invariant
            i <= n,
            n == entries@.len(),
            forall|k: int| 0 <= k < i ==> entries@[k].bidder != bidder,
        decreases n - i,
    {
        if entries[i].bidder == bidder {
            return Some(i);
        }
        i = i + 1;
    }
    None
}

/// Find the best proxy competitor to the current leader.
fn find_best_competitor(entries: &Vec<AutoBidEntry>, leader: AccountId, next_min: u64) -> (r:
    Option<AutoBidEntry>)
    ensures
        r == competitor_scan(entries@, leader, next_min as int, entries@.len() as nat),
{
    let n = entries.len();
    let mut best: Option<AutoBidEntry> = None;
    let mut i: usize = 0;
    while i < n
        invariant
            i <= n,
            n == entries@.len(),
            best == competitor_scan(entries@, leader, next_min as int, i as nat),
        decreases n - i,
    {
        let e = entries[i];
        if e.bidder != leader && e.max_bid >= next_min {
            best = match best {
                None => Some(e),
                Some(b) => if e.max_bid > b.max_bid {
                    Some(e)
                } else {
                    Some(b)
                },
            };
        }
        i = i + 1;
    }
    best
}

/// The least acceptable bid over `highest`, or `None` where it does not
/// fit a `u64`.
fn next_min_after(highest: u64, inc_bps: u16) -> (r: Option<u64>)
    requires
        inc_bps <= BPS_DENOM,
    ensures
        match r {
            Some(v) => v as int == spec_next_min(highest, inc_bps),
            None => spec_next_min(highest, inc_bps) > u64::MAX,
        },
{
    let m = mul_bps_le_denom(highest, inc_bps as u64);
    let inc = if m < 1 {
        1
    } else {
        m
    };
    highest.checked_add(inc)
}

/// Place a bid on a live English auction.
///
/// The bidder may not be the creator and must at least meet the minimum:
/// the slot's price for a first bid, the highest bid plus the minimum
/// increment afterwards.  On acceptance the bidder deposits the full bid
/// into escrow; a displaced positive bid is owed back through the refund
/// queue rather than refunded synchronously; a bid within the anti-snipe
/// window extends the auction; a given `max_auto_bid` registers or
/// updates the bidder's proxy ceiling; and proxy resolution then lets
/// registered ceilings outbid one another synthetically — moving no
/// funds — until none clears the next minimum.  Any failure along the
/// way, including queue exhaustion or overflow during proxy resolution,
/// rejects the whole operation with no effect.  The host must move
/// `bid_amount` from the bidder into escrow exactly when this returns
/// `Ok`.
///
/// A deliberate tension: a synthetic counter-bid is never re-checked
/// against the auto-bidder's actual deposit.  Auto-bidders are expected
/// to pre-fund their ceiling through explicit bids; the escrow-balance
/// check at `auction_end` is what ultimately catches a shortfall.
pub fn bid_place(
    slot: &mut TimeSlot,
    book: &mut BidBook,
    escrow: &mut Escrow,
    queue: &mut RefundQueue,
    store: &mut AutoBidStore,
    bidder: AccountId,
    bid_amount: u64,
    max_auto_bid: Option<u64>,
    now: i64,
) -> (r: Result<(), ErrorCode>)
    requires
        slot_wf(*old(slot)),
        queue_wf(*old(queue)),
        auto_bid_store_wf(*old(store)),
    ensures
        r is Ok <==> bid_place_check(
            *old(slot),
            *old(book),
            *old(escrow),
            *old(queue),
            *old(store),
            bidder,
            bid_amount,
            max_auto_bid,
            now,
        ) is Ok,
        bid_place_check(
            *old(slot),
            *old(book),
            *old(escrow),
            *old(queue),
            *old(store),
            bidder,
            bid_amount,
            max_auto_bid,
            now,
        ) matches Err(e) ==> {
            &&& r == Err::<(), ErrorCode>(e)
            &&& *final(slot) == *old(slot)
            &&& *final(book) == *old(book)
            &&& *final(escrow) == *old(escrow)
            &&& *final(queue) == *old(queue)
            &&& *final(store) == *old(store)
        },
        bid_place_check(
            *old(slot),
            *old(book),
            *old(escrow),
            *old(queue),
            *old(store),
            bidder,
            bid_amount,
            max_auto_bid,
            now,
        ) matches Ok(nx) ==> {
            &&& *final(slot) == (TimeSlot { auction_end_ts: nx.end_ts, ..*old(slot) })
            &&& *final(book) == (BidBook {
                highest_bid: nx.highest,
                highest_bidder: nx.leader,
                next_min_bid: nx.min_required,
                last_bid_ts: now,
            })
            &&& *final(escrow) == (Escrow {
                amount_locked: (old(escrow).amount_locked + bid_amount) as u64,
                ..*old(escrow)
            })
            &&& final(queue).entries@ == old(queue).entries@ + nx.refunds
            &&& final(queue).count == old(queue).count + nx.refunds.len()
            &&& final(queue).cursor == old(queue).cursor
            &&& final(queue).max_entries == old(queue).max_entries
            &&& final(store).entries@ == nx.store_entries
            &&& final(store).max_entries == old(store).max_entries
        },
        r is Ok ==> final(book).highest_bid >= old(book).highest_bid && final(book).highest_bid
            >= bid_amount,
        is_terminal(old(slot).state) ==> r is Err,
        old(slot).frozen ==> r is Err,
        slot_wf(*final(slot)),
        queue_wf(*final(queue)),
        auto_bid_store_wf(*final(store)),
{
    if slot.frozen {
        return Err(ErrorCode::Frozen);
    }
    if slot.mode != Mode::EnglishAuction {
        return Err(ErrorCode::WrongMode);
    }
    if slot.capacity_total != 1 {
        return Err(ErrorCode::MultiCapacityUnsupported);
    }
    if slot.state != SlotState::AuctionLive {
        return Err(ErrorCode::InvalidState);
    }
    if bidder == slot.creator_authority {
        return Err(ErrorCode::Unauthorized);
    }
    let min_required: u64 = if book.highest_bid == 0 {
        slot.price
    } else {
        match next_min_after(book.highest_bid, slot.min_increment_bps) {
            Some(v) => v,
            None => {
                return Err(ErrorCode::Overflow);
            },
        }
    };
    if bid_amount < min_required {
        return Err(ErrorCode::BidTooLow);
    }
    let mut work = copy_auto_bids(&store.entries);
    let mut added = false;
    if let Some(m) = max_auto_bid {
        match find_auto_bid(&work, bidder) {
            Some(i) => {
                proof {
                    assert(has_auto_bid(store.entries@, bidder));
                    let idx = auto_bid_index(store.entries@, bidder);
                    assert(0 <= idx < store.entries@.len() && store.entries@[idx].bidder == bidder);
                    if idx != i as int {
                        if idx < i as int {
                            assert(store.entries@[idx].bidder != store.entries@[i as int].bidder);
                        } else {
                            assert(store.entries@[i as int].bidder != store.entries@[idx].bidder);
                        }
                    }
                    assert(idx == i as int);
                }
                work.set(i, AutoBidEntry { bidder, max_bid: m });
            },
            None => {
                if !(store.count < store.max_entries) {
                    return Err(ErrorCode::InvalidCapacity);
                }
                work.push(AutoBidEntry { bidder, max_bid: m });
                added = true;
            },
        }
    }
    proof {
        assert(register_auto_bid_check(*old(store), bidder, max_auto_bid) == Ok::<
            Seq<AutoBidEntry>,
            ErrorCode,
        >(work@));
        assert(forall|a: int, b: int|
            0 <= a < b < work@.len() ==> work@[a].bidder != work@[b].bidder);
    }
    let mut pending: Vec<RefundEntry> = Vec::new();
    if book.highest_bid > 0 {
        if !(queue.count < queue.max_entries) {
            return Err(ErrorCode::InvalidCapacity);
        }
        if !(queue.entries.len() < 65535) {
            return Err(ErrorCode::InvalidCapacity);
        }
        pending.push(RefundEntry { bidder: book.highest_bidder, amount: book.highest_bid });
    }
    let new_end: Option<i64> = match (slot.auction_end_ts, slot.anti_sniping_sec) {
        (Some(end), Some(ext)) => {
            let ext64 = ext as i64;
            if (end as i128) - (now as i128) <= (ext64 as i128) {
                match end.checked_add(ext64) {
                    Some(v) => Some(v),
                    None => {
                        return Err(ErrorCode::Overflow);
                    },
                }
            } else {
                slot.auction_end_ts
            }
        },
        _ => slot.auction_end_ts,
    };
    let new_locked = match escrow.amount_locked.checked_add(bid_amount) {
        Some(v) => v,
        None => {
            return Err(ErrorCode::Overflow);
        },
    };
    let mut next_min: u64 = if bid_amount == 0 {
        slot.price
    } else {
        match next_min_after(bid_amount, slot.min_increment_bps) {
            Some(v) => v,
            None => {
                return Err(ErrorCode::Overflow);
            },
        }
    };
    let room_count: usize = (queue.max_entries - queue.count) as usize;
    let room_len: usize = 65535 - queue.entries.len();
    let room: usize = if room_count < room_len {
        room_count
    } else {
        room_len
    };
    proof {
        assert(room as int == spec_queue_room(*old(queue)));
        assert(pending@.len() <= room);
    }
    let mut free: usize = room - pending.len();
    let mut leader: AccountId = bidder;
    let mut high: u64 = bid_amount;
    proof {
        if pending@.len() > 0 {
            assert(pending@ =~= Seq::<RefundEntry>::empty().push(pending@[0]));
        }
    }
    loop
        invariant
            *slot == *old(slot),
            *book == *old(book),
            *escrow == *old(escrow),
            *queue == *old(queue),
            *store == *old(store),
            slot_wf(*slot),
            queue_wf(*queue),
            auto_bid_store_wf(*store),
            forall|a: int, b: int| 0 <= a < b < work@.len() ==> work@[a].bidder != work@[b].bidder,
            work@.len() == old(store).entries@.len() + (if added {
                1int
            } else {
                0int
            }),
            added ==> old(store).count < old(store).max_entries,
            pending@.len() + free == spec_queue_room(*old(queue)),
            high >= bid_amount,
            next_min as int >= high as int,
            min_required as int == (if old(book).highest_bid == 0 {
                old(slot).price as int
            } else {
                spec_next_min(old(book).highest_bid, old(slot).min_increment_bps)
            }),
            bid_place_check(
                *old(slot),
                *old(book),
                *old(escrow),
                *old(queue),
                *old(store),
                bidder,
                bid_amount,
                max_auto_bid,
                now,
            ) == (match proxy_rounds(
                work@,
                leader,
                high,
                next_min,
                free as int,
                old(slot).min_increment_bps,
            ) {
                Ok((fl, fh, frs)) => Ok::<BidPlaceNext, ErrorCode>(
                    BidPlaceNext {
                        end_ts: new_end,
                        leader: fl,
                        highest: fh,
                        min_required,
                        refunds: pending@ + frs,
                        store_entries: work@,
                    },
                ),
                Err(e) => Err::<BidPlaceNext, ErrorCode>(e),
            }),
        ensures
            competitor_scan(work@, leader, next_min as int, work@.len() as nat) is None,
        decreases (if next_min as int <= max_ceiling(work@, work@.len() as nat) {
            max_ceiling(work@, work@.len() as nat) + 1 - next_min as int
        } else {
            0int
        }),
    {
        let comp = match find_best_competitor(&work, leader, next_min) {
            Some(c) => c,
            None => {
                break ;
            },
        };
        proof {
            lemma_competitor_scan_bounds(work@, leader, next_min as int, work@.len() as nat);
        }
        let ghost pending_pre = pending@;
        let ghost free_pre = free as int;
        let ghost next_min_pre = next_min;
        let ghost high_pre = high;
        let ghost leader_pre = leader;
        if high > 0 {
            if free == 0 {
                return Err(ErrorCode::InvalidCapacity);
            }
            pending.push(RefundEntry { bidder: leader, amount: high });
            free = free - 1;
        }
        let new_next = match next_min_after(next_min, slot.min_increment_bps) {
            Some(v) => v,
            None => {
                return Err(ErrorCode::Overflow);
            },
        };
        high = next_min;
        leader = comp.bidder;
        next_min = new_next;
        proof {
            let inc_bps = old(slot).min_increment_bps;
            let fr = if high_pre > 0 {
                seq![(RefundEntry { bidder: leader_pre, amount: high_pre })]
            } else {
                Seq::<RefundEntry>::empty()
            };
            assert(pending@ =~= pending_pre + fr);
            let pr_new = proxy_rounds(work@, leader, high, next_min, free as int, inc_bps);
            match pr_new {
                Ok((fl, fh, frs)) => {
                    assert(pending_pre + (fr + frs) =~= (pending_pre + fr) + frs);
                },
                Err(e) => {},
            }
            assert(proxy_rounds(work@, leader_pre, high_pre, next_min_pre, free_pre, inc_bps)
                == (match pr_new {
                Ok((fl, fh, frs)) => Ok::<(AccountId, u64, Seq<RefundEntry>), ErrorCode>(
                    (fl, fh, fr + frs),
                ),
                Err(e) => Err::<(AccountId, u64, Seq<RefundEntry>), ErrorCode>(e),
            }));
        }
    }
    proof {
        assert(pending@ + Seq::<RefundEntry>::empty() =~= pending@);
    }
    slot.auction_end_ts = new_end;
    book.highest_bid = high;
    book.highest_bidder = leader;
    book.next_min_bid = min_required;
    book.last_bid_ts = now;
    escrow.amount_locked = new_locked;
    let pcount = pending.len();
    let mut j: usize = 0;
    while j < pcount
        invariant
            j <= pcount,
            pcount == pending@.len(),
            queue.entries@ == old(queue).entries@ + pending@.take(j as int),
            queue.count == old(queue).count,
            queue.cursor == old(queue).cursor,
            queue.max_entries == old(queue).max_entries,
        decreases pcount - j,
    {
        queue.entries.push(pending[j]);
        proof {
            assert(queue.entries@ =~= old(queue).entries@ + pending@.take(j as int + 1));
        }
        j = j + 1;
    }
    proof {
        assert(pending@.take(pcount as int) =~= pending@);
    }
    queue.count = queue.count + (pcount as u16);
    store.entries = work;
    store.count = if added {
        store.count + 1
    } else {
        store.count
    };
    Ok(())
}

/// Validation and result of `buy_now`.
pub open spec fn buy_now_check(
    platform: Platform,
    profile: CreatorProfile,
    slot: TimeSlot,
    escrow: Escrow,
    bidder: AccountId,
) -> Result<AuctionEndOutcome, ErrorCode> {
    let fee = eff_fee_bps(platform, profile);
    if slot.frozen {
        Err(ErrorCode::Frozen)
    } else if !(slot.mode is EnglishAuction) {
        Err(ErrorCode::WrongMode)
    } else if !(slot.capacity_total == 1) {
        Err(ErrorCode::MultiCapacityUnsupported)
    } else if !(slot.state is Open || slot.state is AuctionLive) {
        Err(ErrorCode::InvalidState)
    } else if slot.buy_now is None {
        Err(ErrorCode::InvalidPrice)
    } else if escrow.amount_locked + slot.buy_now->0 > u64::MAX {
        Err(ErrorCode::Overflow)
    } else {
        Ok(
            AuctionEndOutcome {
                winner: bidder,
                winning_bid: slot.buy_now->0,
                payout: T0Payout {
                    creator_amount: spec_t0_creator(
                        slot.buy_now->0 as int,
                        fee,
                        AUCTION_T0_BPS as int,
                    ) as u64,
                    fee_amount: spec_t0_fee(slot.buy_now->0 as int, fee, AUCTION_T0_BPS as int) as u64,
                },
            },
        )
    }
}

/// Sell an English auction slot instantly at its configured buy-now
/// price: the bidder deposits the price into escrow, is bound as buyer
/// and highest bidder, and the T0 milestone is released on the spot,
/// moving the slot to `Locked`.  The host must collect the winning bid
/// from the bidder and pay the returned amounts out of escrow exactly
/// when this returns `Ok`.
pub fn buy_now(
    platform: &Platform,
    profile: &CreatorProfile,
    slot: &mut TimeSlot,
    book: &mut BidBook,
    escrow: &mut Escrow,
    bidder: AccountId,
) -> (r: Result<AuctionEndOutcome, ErrorCode>)
    requires
        slot_wf(*old(slot)),
        platform_wf(*platform),
        profile_wf(*profile),
    ensures
        r == buy_now_check(*platform, *profile, *old(slot), *old(escrow), bidder),
        r matches Ok(o) ==> *final(slot) == (TimeSlot { state: SlotState::Locked, ..*old(slot) })
            && *final(book) == (BidBook {
            highest_bid: o.winning_bid,
            highest_bidder: bidder,
            ..*old(book)
        }) && *final(escrow) == (Escrow {
            amount_locked: (old(escrow).amount_locked + o.winning_bid - o.payout.creator_amount
                - o.payout.fee_amount) as u64,
            buyer: Some(bidder),
        }),
        r is Err ==> *final(slot) == *old(slot) && *final(book) == *old(book) && *final(escrow)
            == *old(escrow),
        is_terminal(old(slot).state) ==> r is Err,
        old(slot).frozen ==> r is Err,
        slot_wf(*final(slot)),
{
    if slot.frozen {
        return Err(ErrorCode::Frozen);
    }
    if slot.mode != Mode::EnglishAuction {
        return Err(ErrorCode::WrongMode);
    }
    if slot.capacity_total != 1 {
        return Err(ErrorCode::MultiCapacityUnsupported);
    }
    if !(slot.state == SlotState::Open || slot.state == SlotState::AuctionLive) {
        return Err(ErrorCode::InvalidState);
    }
    let price = match slot.buy_now {
        Some(p) => p,
        None => {
            return Err(ErrorCode::InvalidPrice);
        },
    };
    let deposited = match escrow.amount_locked.checked_add(price) {
        Some(v) => v,
        None => {
            return Err(ErrorCode::Overflow);
        },
    };
    let fee = effective_fee_bps(platform, profile);
    let p = compute_t0_payout(price, fee, AUCTION_T0_BPS);
    escrow.amount_locked = deposited - (p.creator_amount + p.fee_amount);
    escrow.buyer = Some(bidder);
    book.highest_bid = price;
    book.highest_bidder = bidder;
    slot.state = SlotState::Locked;
    Ok(AuctionEndOutcome { winner: bidder, winning_bid: price, payout: p })
}

} // verus!
