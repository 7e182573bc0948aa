//! The sealed-bid engine: commit-then-reveal bidding with hash
//! commitments, and winner selection by highest revealed bid.

use vstd::prelude::*;

use crate::auction::AuctionEndOutcome;
use crate::errors::ErrorCode;
use crate::escrow::Escrow;
use crate::fees::{
    compute_t0_payout, compute_t1_payout, effective_fee_bps, eff_fee_bps, spec_t0_creator,
    spec_t0_fee, spec_t1_creator, spec_t1_fee, spec_t1_release, spec_t1_withhold, T0Payout,
    T1Payout,
};
use crate::market::{platform_wf, profile_wf, CreatorProfile, Platform};
use crate::slot::{is_terminal, slot_wf, Mode, SlotState, TimeSlot};
use crate::{AccountId, AUCTION_T0_BPS};

verus! {

/// One bidder's sealed commitment, and their bid once revealed.
#[derive(Debug)]
pub struct CommitEntry {
    /// Who committed.
    pub bidder: AccountId,
    /// Digest of the bid, salt, and bidder identity.
    pub commitment_hash: Vec<u8>,
    /// Whether the bid was revealed.
    pub revealed: bool,
    /// The revealed bid, once revealed.
    pub bid_amount: Option<u64>,
}

/// Bounded table of sealed commitments, one entry per bidder.
#[derive(Debug)]
pub struct CommitStore {
    /// Upper bound on entries.
    pub max_entries: u16,
    /// Number of entries.
    pub count: u16,
    /// The commitments.
    pub entries: Vec<CommitEntry>,
}

/// What every operation preserves of a commit store: the count matches
/// the entries, stays within its bound, and each bidder appears at most
/// once.
pub open spec fn commit_store_wf(s: CommitStore) -> bool {
    &&& s.entries.len() == s.count
    &&& s.count <= s.max_entries
    &&& forall|i: int, j: int|
        0 <= i < j < s.entries.len() ==> s.entries[i].bidder != s.entries[j].bidder
}

/// Whether some entry of `entries` belongs to `bidder`.
pub open spec fn has_commit(entries: Seq<CommitEntry>, bidder: AccountId) -> bool {
    exists|i: int| 0 <= i < entries.len() && entries[i].bidder == bidder
}

/// The index of `bidder`'s entry; meaningful when `has_commit` holds and
/// the store is well formed, which makes the entry unique.
pub open spec fn commit_index(entries: Seq<CommitEntry>, bidder: AccountId) -> int {
    choose|i: int| 0 <= i < entries.len() && entries[i].bidder == bidder
}

/// Create the empty commit store that accompanies a sealed-bid slot,
/// rejecting a zero bound.
pub fn init_commit_store(max_entries: u16) -> (r: Result<CommitStore, ErrorCode>)
    ensures
        max_entries == 0 ==> r == Err::<CommitStore, ErrorCode>(ErrorCode::InvalidCapacity),
        max_entries > 0 ==> (r matches Ok(s) && s.max_entries == max_entries && s.count == 0
            && s.entries@ =~= Seq::<CommitEntry>::empty() && commit_store_wf(s)),
{
    if max_entries == 0 {
        return Err(ErrorCode::InvalidCapacity);
    }
    Ok(CommitStore { max_entries, count: 0, entries: Vec::new() })
}

/// The digest that seals a bid: what the reveal of `bid_amount` with
/// `salt` by `bidder` must hash to.  Computed by an outside hash
/// primitive; nothing but the trusted wrapper below says what it is on
/// given values.
pub uninterp spec fn commit_digest_of(bid_amount: u64, salt: Seq<u8>, bidder: AccountId) -> Seq<u8>;

/// Relies on solana_program::hash::hashv: the SHA-256 digest of the
/// concatenation of the bid's little-endian bytes, the salt, and the
/// bidder's little-endian bytes; it depends on those inputs alone.
#[verifier::external_body]
fn hash_commitment(bid_amount: u64, salt: &Vec<u8>, bidder: AccountId) -> (r: Vec<u8>)
    ensures
        r@ == commit_digest_of(bid_amount, salt@, bidder),
{
    let digest = solana_program::hash::hashv(
        &[&bid_amount.to_le_bytes(), salt.as_slice(), &bidder.to_le_bytes()],
    );
    digest.to_bytes().to_vec()
}

/// Compute the commitment digest for a bid, salt, and bidder: what a
/// bidder submits to `bid_commit` and what `bid_reveal` checks the
/// revealed values against.
pub fn commitment_digest(bid_amount: u64, salt: &Vec<u8>, bidder: AccountId) -> (r: Vec<u8>)
    ensures
        r@ == commit_digest_of(bid_amount, salt@, bidder),
{
    hash_commitment(bid_amount, salt, bidder)
}

/// Compare two byte strings for equality.
fn bytes_eq(a: &Vec<u8>, b: &Vec<u8>) -> (r: bool)
    ensures
        r <==> a@ == b@,
{
    if a.len() != b.len() {
        return false;
    }
    let mut i: usize = 0;
    while i < a.len()
        invariant
            i <= a.len(),
            a.len() == b.len(),
            forall|k: int| 0 <= k < i ==> a@[k] == b@[k],
        decreases a.len() - i,
    {
        if a[i] != b[i] {
            return false;
        }
        i = i + 1;
    }
    proof {
        assert(a@ =~= b@);
    }
    true
}

/// Find the index of `bidder`'s entry, scanning from the front.
fn find_commit_entry(entries: &Vec<CommitEntry>, bidder: AccountId) -> (r: Option<usize>)
    ensures
        match r {
            Some(i) => i < entries@.len() && entries@[i as int].bidder == bidder,
            None => !has_commit(entries@, bidder),
        },
{
    let n = entries.len();
    let mut i: usize = 0;
    while i < n
        invariant
            i <= n,
            n == entries@.len(),
            forall|k: int| 0 <= k < i ==> entries@[k].bidder != bidder,
        decreases n - i,
    {
        if entries[i].bidder == bidder {
            return Some(i);
        }
        i = i + 1;
    }
    None
}

/// Validation of `bid_commit`.
pub open spec fn bid_commit_check(slot: TimeSlot, store: CommitStore, bidder: AccountId) -> Result<
    (),
    ErrorCode,
> {
    if !(slot.mode is SealedBid) {
        Err(ErrorCode::WrongMode)
    } else if !(store.count < store.max_entries) {
        Err(ErrorCode::InvalidCapacity)
    } else if has_commit(store.entries@, bidder) {
        Err(ErrorCode::AlreadyCommitted)
    } else {
        Ok(())
    }
}

/// Record a bidder's sealed commitment: one per bidder, within the
/// store's bound, on a sealed-bid slot.
pub fn bid_commit(
    slot: &TimeSlot,
    store: &mut CommitStore,
    bidder: AccountId,
    commitment_hash: Vec<u8>,
) -> (r: Result<(), ErrorCode>)
    requires
        commit_store_wf(*old(store)),
    ensures
        r == bid_commit_check(*slot, *old(store), bidder),
        r is Ok ==> {
            &&& final(store).entries@.len() == old(store).entries@.len() + 1
            &&& final(store).entries@.last() == (CommitEntry {
                bidder,
                commitment_hash,
                revealed: false,
                bid_amount: None,
            })
            &&& final(store).entries@.drop_last() =~= old(store).entries@
            &&& final(store).count == old(store).count + 1
            &&& final(store).max_entries == old(store).max_entries
        },
        r is Err ==> *final(store) == *old(store),
        commit_store_wf(*final(store)),
{
    if slot.mode != Mode::SealedBid {
        return Err(ErrorCode::WrongMode);
    }
    if !(store.count < store.max_entries) {
        return Err(ErrorCode::InvalidCapacity);
    }
    if let Some(i) = find_commit_entry(&store.entries, bidder) {
        proof {
            assert(store.entries@[i as int].bidder == bidder);
            assert(has_commit(store.entries@, bidder));
        }
        return Err(ErrorCode::AlreadyCommitted);
    }
    store.entries.push(
        CommitEntry { bidder, commitment_hash, revealed: false, bid_amount: None },
    );
    store.count = store.count + 1;
    Ok(())
}

/// Validation of `bid_reveal`: the revealed bid and salt must hash to the
/// stored commitment of a not-yet-revealed entry of this bidder.
pub open spec fn bid_reveal_check(
    slot: TimeSlot,
    store: CommitStore,
    bidder: AccountId,
    bid_amount: u64,
    salt: Seq<u8>,
) -> Result<(), ErrorCode> {
    if !(slot.mode is SealedBid) {
        Err(ErrorCode::WrongMode)
    } else if !has_commit(store.entries@, bidder) {
        Err(ErrorCode::NotCommitted)
    } else {
        let e = store.entries@[commit_index(store.entries@, bidder)];
        if e.revealed {
            Err(ErrorCode::AlreadyRevealed)
        } else if e.commitment_hash@ != commit_digest_of(bid_amount, salt, bidder) {
            Err(ErrorCode::RevealMismatch)
        } else {
            Ok(())
        }
    }
}

/// Reveal a sealed bid: recomputes the commitment digest from the bid,
/// salt, and bidder, and accepts exactly when it matches the stored,
/// not-yet-revealed commitment; the entry then records the revealed
/// amount.
pub fn bid_reveal(
    slot: &TimeSlot,
    store: &mut CommitStore,
    bidder: AccountId,
    bid_amount: u64,
    salt: &Vec<u8>,
) -> (r: Result<(), ErrorCode>)
    requires
        commit_store_wf(*old(store)),
    ensures
        r == bid_reveal_check(*slot, *old(store), bidder, bid_amount, salt@),
        r is Ok ==> {
            let idx = commit_index(old(store).entries@, bidder);
            &&& final(store).entries@.len() == old(store).entries@.len()
            &&& final(store).entries@[idx].bidder == bidder
            &&& final(store).entries@[idx].revealed
            &&& final(store).entries@[idx].bid_amount == Some(bid_amount)
            &&& final(store).entries@[idx].commitment_hash@ == old(
                store,
            ).entries@[idx].commitment_hash@
            &&& forall|k: int|
                0 <= k < old(store).entries@.len() && k != idx ==> final(store).entries@[k] == old(
                    store,
                ).entries@[k]
            &&& final(store).count == old(store).count
            &&& final(store).max_entries == old(store).max_entries
        },
        r is Err ==> *final(store) == *old(store),
        commit_store_wf(*final(store)),
{
    if slot.mode != Mode::SealedBid {
        return Err(ErrorCode::WrongMode);
    }
    let expected = hash_commitment(bid_amount, salt, bidder);
    let i = match find_commit_entry(&store.entries, bidder) {
        Some(i) => i,
        None => {
            return Err(ErrorCode::NotCommitted);
        },
    };
    proof {
        assert(store.entries@[i as int].bidder == bidder);
        assert(has_commit(store.entries@, bidder));
        let idx = commit_index(store.entries@, bidder);
        assert(0 <= idx < store.entries@.len() && store.entries@[idx].bidder == bidder);
        if idx != i as int {
            if idx < i as int {
                assert(store.entries@[idx].bidder != store.entries@[i as int].bidder);
            } else {
                assert(store.entries@[i as int].bidder != store.entries@[idx].bidder);
            }
        }
        assert(idx == i as int);
    }
    if store.entries[i].revealed {
        return Err(ErrorCode::AlreadyRevealed);
    }
    let matches_commitment = bytes_eq(&store.entries[i].commitment_hash, &expected);
    if !matches_commitment {
        return Err(ErrorCode::RevealMismatch);
    }
    let updated = CommitEntry {
        bidder,
        commitment_hash: expected,
        revealed: true,
        bid_amount: Some(bid_amount),
    };
    store.entries.set(i, updated);
    Ok(())
}

/// The best revealed bid among the first `i` entries: the strictly
/// highest revealed amount, the first-seen entry winning ties.
pub open spec fn winner_scan(entries: Seq<CommitEntry>, i: nat) -> Option<(AccountId, u64)>
    decreases i,
{
    if i == 0 {
        None
    } else {
        let prev = winner_scan(entries, (i - 1) as nat);
        let e = entries[i - 1];
        if e.revealed && e.bid_amount is Some {
            match prev {
                None => Some((e.bidder, e.bid_amount->0)),
                Some((w, hb)) => if e.bid_amount->0 > hb {
                    Some((e.bidder, e.bid_amount->0))
                } else {
                    prev
                },
            }
        } else {
            prev
        }
    }
}

/// Validation and result of `sealed_auction_end`.
pub open spec fn sealed_auction_end_check(
    platform: Platform,
    profile: CreatorProfile,
    slot: TimeSlot,
    escrow: Escrow,
    store: CommitStore,
    now: i64,
) -> Result<AuctionEndOutcome, ErrorCode> {
    let fee = eff_fee_bps(platform, profile);
    if slot.frozen {
        Err(ErrorCode::Frozen)
    } else if !(slot.mode is SealedBid) {
        Err(ErrorCode::WrongMode)
    } else if !(slot.capacity_total == 1) {
        Err(ErrorCode::MultiCapacityUnsupported)
    } else if !(slot.state is Open || slot.state is AuctionLive) {
        Err(ErrorCode::InvalidState)
    } else if slot.auction_end_ts is None {
        Err(ErrorCode::MissingAuctionWindow)
    } else if (now as int) < slot.auction_end_ts->0 {
        Err(ErrorCode::TooEarly)
    } else {
        match winner_scan(store.entries@, store.entries@.len() as nat) {
            None => Err(ErrorCode::NoBids),
            Some((winner, winning_bid)) => if escrow.amount_locked != winning_bid {
                Err(ErrorCode::InvalidEscrowBalance)
            } else {
                Ok(
                    AuctionEndOutcome {
                        winner,
                        winning_bid,
                        payout: T0Payout {
                            creator_amount: spec_t0_creator(
                                winning_bid as int,
                                fee,
                                AUCTION_T0_BPS as int,
                            ) as u64,
                            fee_amount: spec_t0_fee(
                                winning_bid as int,
                                fee,
                                AUCTION_T0_BPS as int,
                            ) as u64,
                        },
                    },
                )
            },
        }
    }
}

/// End a sealed-bid auction at or after its end time: selects the
/// strictly highest revealed bid (the first-seen entry wins ties), binds
/// that bidder as the escrow's buyer, requires the escrow to already
/// hold exactly the winning bid, releases the T0 milestone (40%, fee pro
/// rata), and moves the slot to `Locked`.  The host must pay the
/// returned amounts out of escrow exactly when this returns `Ok`.
pub fn sealed_auction_end(
    platform: &Platform,
    profile: &CreatorProfile,
    slot: &mut TimeSlot,
    escrow: &mut Escrow,
    store: &CommitStore,
    now: i64,
) -> (r: Result<AuctionEndOutcome, ErrorCode>)
    requires
        slot_wf(*old(slot)),
        platform_wf(*platform),
        profile_wf(*profile),
    ensures
        r == sealed_auction_end_check(*platform, *profile, *old(slot), *old(escrow), *store, now),
        r matches Ok(o) ==> *final(slot) == (TimeSlot { state: SlotState::Locked, ..*old(slot) })
            && *final(escrow) == (Escrow {
            amount_locked: (old(escrow).amount_locked - o.payout.creator_amount
                - o.payout.fee_amount) as u64,
            buyer: Some(o.winner),
        }),
        r is Err ==> *final(slot) == *old(slot) && *final(escrow) == *old(escrow),
        is_terminal(old(slot).state) ==> r is Err,
        old(slot).frozen ==> r is Err,
        slot_wf(*final(slot)),
{
    if slot.frozen {
        return Err(ErrorCode::Frozen);
    }
    if slot.mode != Mode::SealedBid {
        return Err(ErrorCode::WrongMode);
    }
    if slot.capacity_total != 1 {
        return Err(ErrorCode::MultiCapacityUnsupported);
    }
    if !(slot.state == SlotState::Open || slot.state == SlotState::AuctionLive) {
        return Err(ErrorCode::InvalidState);
    }
    let end = match slot.auction_end_ts {
        Some(t) => t,
        None => {
            return Err(ErrorCode::MissingAuctionWindow);
        },
    };
    if now < end {
        return Err(ErrorCode::TooEarly);
    }
    let n = store.entries.len();
    let mut best: Option<(AccountId, u64)> = None;
    let mut i: usize = 0;
    while i < n
        invariant
            i <= n,
            n == store.entries.len(),
            best == winner_scan(store.entries@, i as nat),
        decreases n - i,
    {
        let e = &store.entries[i];
        if e.revealed {
            if let Some(b) = e.bid_amount {
                best = match best {
                    None => Some((e.bidder, b)),
                    Some((w, hb)) => if b > hb {
                        Some((e.bidder, b))
                    } else {
                        Some((w, hb))
                    },
                };
            }
        }
        i = i + 1;
    }
    let (winner, winning_bid) = match best {
        Some(p) => p,
        None => {
            return Err(ErrorCode::NoBids);
        },
    };
    if escrow.amount_locked != winning_bid {
        return Err(ErrorCode::InvalidEscrowBalance);
    }
    let fee = effective_fee_bps(platform, profile);
    let p = compute_t0_payout(winning_bid, fee, AUCTION_T0_BPS);
    escrow.amount_locked = escrow.amount_locked - (p.creator_amount + p.fee_amount);
    escrow.buyer = Some(winner);
    slot.state = SlotState::Locked;
    Ok(AuctionEndOutcome { winner, winning_bid, payout: p })
}

/// Validation and result of `sealed_auction_settle`.  The remaining
/// escrow balance itself is the T1 base: the winning bid is not stored
/// after conclusion, so the final milestone settles whatever the escrow
/// still holds.
pub open spec fn sealed_auction_settle_check(
    platform: Platform,
    profile: CreatorProfile,
    slot: TimeSlot,
    escrow: Escrow,
) -> Result<T1Payout, ErrorCode> {
    let fee = eff_fee_bps(platform, profile);
    let t1_base = escrow.amount_locked as int;
    if !(slot.mode is SealedBid) {
        Err(ErrorCode::WrongMode)
    } else if !(slot.capacity_total == 1) {
        Err(ErrorCode::MultiCapacityUnsupported)
    } else if slot.frozen {
        Err(ErrorCode::Frozen)
    } else if !(slot.state is Completed) {
        Err(ErrorCode::InvalidState)
    } else if spec_t1_fee(t1_base, fee) > spec_t1_release(t1_base) {
        Err(ErrorCode::Overflow)
    } else {
        Ok(
            T1Payout {
                creator_amount: spec_t1_creator(t1_base, fee) as u64,
                fee_amount: spec_t1_fee(t1_base, fee) as u64,
                withheld_amount: spec_t1_withhold(t1_base) as u64,
            },
        )
    }
}

/// Settle the final milestone of a sealed-bid auction from `Completed`:
/// the entire remaining escrow is the T1 base; 98% of it is released to
/// the creator and fee vault, the rest withheld into the dispute vault,
/// emptying the escrow and moving the slot to `Settled`.  The host must
/// pay the returned amounts out of escrow exactly when this returns
/// `Ok`.
pub fn sealed_auction_settle(
    platform: &Platform,
    profile: &CreatorProfile,
    slot: &mut TimeSlot,
    escrow: &mut Escrow,
) -> (r: Result<T1Payout, ErrorCode>)
    requires
        slot_wf(*old(slot)),
        platform_wf(*platform),
        profile_wf(*profile),
    ensures
        r == sealed_auction_settle_check(*platform, *profile, *old(slot), *old(escrow)),
        r matches Ok(p) ==> *final(slot) == (TimeSlot { state: SlotState::Settled, ..*old(slot) })
            && *final(escrow) == (Escrow { amount_locked: 0, ..*old(escrow) })
            && p.creator_amount + p.fee_amount + p.withheld_amount == old(escrow).amount_locked,
        r is Err ==> *final(slot) == *old(slot) && *final(escrow) == *old(escrow),
        is_terminal(old(slot).state) ==> r is Err,
        old(slot).frozen ==> r is Err,
        slot_wf(*final(slot)),
{
    if slot.mode != Mode::SealedBid {
        return Err(ErrorCode::WrongMode);
    }
    if slot.capacity_total != 1 {
        return Err(ErrorCode::MultiCapacityUnsupported);
    }
    if slot.frozen {
        return Err(ErrorCode::Frozen);
    }
    if slot.state != SlotState::Completed {
        return Err(ErrorCode::InvalidState);
    }
    let t1_base = escrow.amount_locked;
    let fee = effective_fee_bps(platform, profile);
    let p = match compute_t1_payout(t1_base, fee) {
        Ok(p) => p,
        Err(e) => {
            return Err(e);
        },
    };
    escrow.amount_locked = 0;
    slot.state = SlotState::Settled;
    Ok(p)
}

} // verus!
