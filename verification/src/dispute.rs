//! Dispute resolution: freezing a slot and the arbitrated split.

use vstd::prelude::*;

use crate::errors::ErrorCode;
use crate::escrow::Escrow;
use crate::fees::{lemma_mul_bps_bound, mul_bps, mul_bps_le_denom};
use crate::market::{platform_wf, Platform};
use crate::slot::{is_terminal, slot_wf, SlotState, TimeSlot};
use crate::{AccountId, BPS_DENOM};

verus! {

/// Validation of `raise_dispute`.
pub open spec fn raise_dispute_check(slot: TimeSlot, escrow: Escrow, raiser: AccountId) -> Result<
    (),
    ErrorCode,
> {
    if slot.frozen {
        Err(ErrorCode::Frozen)
    } else if is_terminal(slot.state) {
        Err(ErrorCode::InvalidState)
    } else if escrow.buyer is None {
        Err(ErrorCode::NotReserved)
    } else if escrow.buyer->0 != raiser && slot.creator_authority != raiser {
        Err(ErrorCode::Unauthorized)
    } else {
        Ok(())
    }
}

/// Freeze a slot under dispute: callable by the current buyer or the
/// creator, only while not already frozen and not in a terminal state.
/// While frozen, settlement, cancellation and closing all fail until an
/// arbiter resolves the dispute.
pub fn raise_dispute(slot: &mut TimeSlot, escrow: &Escrow, raiser: AccountId) -> (r: Result<
    (),
    ErrorCode,
>)
    requires
        slot_wf(*old(slot)),
    ensures
        r == raise_dispute_check(*old(slot), *escrow, raiser),
        r is Ok ==> *final(slot) == (TimeSlot { frozen: true, ..*old(slot) }),
        r is Err ==> *final(slot) == *old(slot),
        is_terminal(old(slot).state) ==> r is Err,
        slot_wf(*final(slot)),
{
    if slot.frozen {
        return Err(ErrorCode::Frozen);
    }
    if slot.state == SlotState::Settled || slot.state == SlotState::Refunded || slot.state
        == SlotState::Closed {
        return Err(ErrorCode::InvalidState);
    }
    let buyer = match escrow.buyer {
        Some(b) => b,
        None => {
            return Err(ErrorCode::NotReserved);
        },
    };
    if !(raiser == buyer || raiser == slot.creator_authority) {
        return Err(ErrorCode::Unauthorized);
    }
    slot.frozen = true;
    Ok(())
}

/// How an arbiter split the remaining escrow of a disputed slot.
#[derive(Clone, Copy, Debug, PartialEq, Eq, Structural)]
pub struct DisputeResolution {
    /// Paid to the creator's payout wallet.
    pub creator_amount: u64,
    /// Returned to the buyer.
    pub buyer_amount: u64,
}

/// Validation and result of `resolve_dispute`: the split of the entire
/// remaining escrow at the given rate, creator share rounded down.
pub open spec fn resolve_dispute_check(
    platform: Platform,
    slot: TimeSlot,
    escrow: Escrow,
    admin: AccountId,
    payout_split_bps_to_creator: u16,
) -> Result<DisputeResolution, ErrorCode> {
    let to_creator = mul_bps(escrow.amount_locked as int, payout_split_bps_to_creator as int);
    if platform.admin != admin {
        Err(ErrorCode::Unauthorized)
    } else if payout_split_bps_to_creator > BPS_DENOM {
        Err(ErrorCode::InvalidBps)
    } else if !slot.frozen {
        Err(ErrorCode::Unauthorized)
    } else {
        Ok(
            DisputeResolution {
                creator_amount: to_creator as u64,
                buyer_amount: (escrow.amount_locked - to_creator) as u64,
            },
        )
    }
}

/// Resolve a dispute: only the platform admin, only while the slot is
/// frozen.  The entire remaining escrow is disbursed — the given share to
/// the creator, the rest back to the buyer, with no further fee taken —
/// the freeze is lifted, and the slot ends `Settled` when the creator
/// received anything, `Refunded` otherwise.  The host must pay both
/// returned amounts out of escrow exactly when this returns `Ok`.
pub fn resolve_dispute(
    platform: &Platform,
    slot: &mut TimeSlot,
    escrow: &mut Escrow,
    admin: AccountId,
    payout_split_bps_to_creator: u16,
) -> (r: Result<DisputeResolution, ErrorCode>)
    requires
        slot_wf(*old(slot)),
        platform_wf(*platform),
    ensures
        r == resolve_dispute_check(
            *platform,
            *old(slot),
            *old(escrow),
            admin,
            payout_split_bps_to_creator,
        ),
        r matches Ok(d) ==> d.creator_amount + d.buyer_amount == old(escrow).amount_locked,
        r matches Ok(d) ==> *final(slot) == (TimeSlot {
            frozen: false,
            state: if d.creator_amount > 0 {
                SlotState::Settled
            } else {
                SlotState::Refunded
            },
            ..*old(slot)
        }) && *final(escrow) == (Escrow { amount_locked: 0, ..*old(escrow) }),
        r is Err ==> *final(slot) == *old(slot) && *final(escrow) == *old(escrow),
        is_terminal(old(slot).state) ==> r is Err,
        slot_wf(*final(slot)),
{
    if platform.admin != admin {
        return Err(ErrorCode::Unauthorized);
    }
    if payout_split_bps_to_creator > 10_000 {
        return Err(ErrorCode::InvalidBps);
    }
    if !slot.frozen {
        return Err(ErrorCode::Unauthorized);
    }
    let remaining = escrow.amount_locked;
    let to_creator = mul_bps_le_denom(remaining, payout_split_bps_to_creator as u64);
    proof {
        lemma_mul_bps_bound(remaining as int, payout_split_bps_to_creator as int);
    }
    let to_buyer = remaining - to_creator;
    escrow.amount_locked = 0;
    slot.frozen = false;
    slot.state = if to_creator > 0 {
        SlotState::Settled
    } else {
        SlotState::Refunded
    };
    Ok(DisputeResolution { creator_amount: to_creator, buyer_amount: to_buyer })
}

} // verus!
