//! Tipping: direct pass-through payments to a creator, independent of the
//! escrow and slot state machine.  Only cumulative counters change here;
//! the host moves the tip itself straight from tipper to payout wallet.

use vstd::prelude::*;

use crate::errors::ErrorCode;
use crate::market::CreatorProfile;
use crate::slot::{slot_wf, TimeSlot};
use crate::AccountId;

verus! {

/// Validation of `tip_creator`.
pub open spec fn tip_creator_check(profile: CreatorProfile, amount: u64) -> Result<
    (),
    ErrorCode,
> {
    if amount == 0 {
        Err(ErrorCode::InvalidAmount)
    } else if profile.total_tips_received + amount > u64::MAX {
        Err(ErrorCode::Overflow)
    } else if profile.tip_count + 1 > u32::MAX {
        Err(ErrorCode::Overflow)
    } else {
        Ok(())
    }
}

/// Record a direct tip to a creator: the amount must be positive and the
/// cumulative counters must not overflow.  No escrow and no platform fee
/// are involved; the host transfers `amount` from the tipper to the
/// creator's payout wallet exactly when this returns `Ok`.
pub fn tip_creator(profile: &mut CreatorProfile, amount: u64) -> (r: Result<(), ErrorCode>)
    ensures
        r == tip_creator_check(*old(profile), amount),
        r is Ok ==> *final(profile) == (CreatorProfile {
            total_tips_received: (old(profile).total_tips_received + amount) as u64,
            tip_count: (old(profile).tip_count + 1) as u32,
            ..*old(profile)
        }),
        r is Err ==> *final(profile) == *old(profile),
{
    if amount == 0 {
        return Err(ErrorCode::InvalidAmount);
    }
    let new_total = match profile.total_tips_received.checked_add(amount) {
        Some(v) => v,
        None => {
            return Err(ErrorCode::Overflow);
        },
    };
    let new_count = match profile.tip_count.checked_add(1) {
        Some(v) => v,
        None => {
            return Err(ErrorCode::Overflow);
        },
    };
    profile.total_tips_received = new_total;
    profile.tip_count = new_count;
    Ok(())
}

/// Validation of `tip_for_session`.
pub open spec fn tip_for_session_check(
    profile: CreatorProfile,
    slot: TimeSlot,
    profile_id: AccountId,
    amount: u64,
) -> Result<(), ErrorCode> {
    if amount == 0 {
        Err(ErrorCode::InvalidAmount)
    } else if slot.creator_profile != profile_id {
        Err(ErrorCode::Unauthorized)
    } else if profile.total_tips_received + amount > u64::MAX {
        Err(ErrorCode::Overflow)
    } else if profile.tip_count + 1 > u32::MAX {
        Err(ErrorCode::Overflow)
    } else if slot.total_tips_received + amount > u64::MAX {
        Err(ErrorCode::Overflow)
    } else {
        Ok(())
    }
}

/// Record a tip attached to a session: like `tip_creator`, but the slot
/// must belong to the tipped creator's profile and the slot's own tip
/// total is updated as well.
pub fn tip_for_session(
    profile: &mut CreatorProfile,
    slot: &mut TimeSlot,
    profile_id: AccountId,
    amount: u64,
) -> (r: Result<(), ErrorCode>)
    requires
        slot_wf(*old(slot)),
    ensures
        r == tip_for_session_check(*old(profile), *old(slot), profile_id, amount),
        r is Ok ==> *final(profile) == (CreatorProfile {
            total_tips_received: (old(profile).total_tips_received + amount) as u64,
            tip_count: (old(profile).tip_count + 1) as u32,
            ..*old(profile)
        }) && *final(slot) == (TimeSlot {
            total_tips_received: (old(slot).total_tips_received + amount) as u64,
            ..*old(slot)
        }),
        r is Err ==> *final(profile) == *old(profile) && *final(slot) == *old(slot),
        slot_wf(*final(slot)),
{
    if amount == 0 {
        return Err(ErrorCode::InvalidAmount);
    }
    if slot.creator_profile != profile_id {
        return Err(ErrorCode::Unauthorized);
    }
    let new_total = match profile.total_tips_received.checked_add(amount) {
        Some(v) => v,
        None => {
            return Err(ErrorCode::Overflow);
        },
    };
    let new_count = match profile.tip_count.checked_add(1) {
        Some(v) => v,
        None => {
            return Err(ErrorCode::Overflow);
        },
    };
    let new_slot_total = match slot.total_tips_received.checked_add(amount) {
        Some(v) => v,
        None => {
            return Err(ErrorCode::Overflow);
        },
    };
    profile.total_tips_received = new_total;
    profile.tip_count = new_count;
    slot.total_tips_received = new_slot_total;
    Ok(())
}

} // verus!
