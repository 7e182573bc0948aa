//! The per-slot escrow ledger and the stable (fixed-price) flow.
//!
//! `amount_locked` is the single source of truth for what remains to be
//! disbursed for a slot.  Every operation that moves value either adds a
//! deposit it reports to the caller, or subtracts exactly the amounts it
//! tells the caller to pay out; a rejected operation changes nothing.

use vstd::prelude::*;

use crate::errors::ErrorCode;
use crate::fees::{
    compute_t0_payout, compute_t1_payout, effective_fee_bps, eff_fee_bps, lemma_mul_bps_bound,
    mul_bps_le_denom, spec_t0_creator, spec_t0_fee, spec_t1_base, spec_t1_creator,
    spec_t1_fee, spec_t1_release, spec_t1_withhold, T0Payout, T1Payout,
};
use crate::market::{platform_wf, profile_wf, CreatorProfile, Platform};
use crate::slot::{is_terminal, slot_wf, spec_t0_ts, t0_ts, Mode, SlotState, TimeSlot};
use crate::{AccountId, STABLE_T0_BPS};

verus! {

/// Neutral holding balance for one slot's in-flight payment.
#[derive(Clone, Copy, Debug)]
pub struct Escrow {
    /// What remains to be disbursed for this slot.
    pub amount_locked: u64,
    /// The current claimant, once a reservation or winning bid binds one.
    pub buyer: Option<AccountId>,
}

/// Create the empty escrow that accompanies a new slot.
pub fn init_escrow() -> (e: Escrow)
    ensures
        e.amount_locked == 0,
        e.buyer is None,
{
    Escrow { amount_locked: 0, buyer: None }
}

/// Validation of `stable_reserve`, with the error each rejected input
/// produces.
pub open spec fn stable_reserve_check(slot: TimeSlot, escrow: Escrow, amount: u64) -> Result<
    (),
    ErrorCode,
> {
    if !(slot.mode is Stable) {
        Err(ErrorCode::WrongMode)
    } else if !(slot.state is Open) {
        Err(ErrorCode::InvalidState)
    } else if amount != slot.price {
        Err(ErrorCode::InvalidPrice)
    } else if !(slot.capacity_sold < slot.capacity_total) {
        Err(ErrorCode::CapacityExhausted)
    } else if escrow.amount_locked + amount > u64::MAX {
        Err(ErrorCode::Overflow)
    } else {
        Ok(())
    }
}

/// Reserve an open stable slot: the buyer deposits exactly the slot's
/// price into escrow and becomes its claimant; the slot moves to
/// `Reserved`.  The host must move `amount` from the buyer into the
/// escrow account exactly when this returns `Ok`.
pub fn stable_reserve(
    slot: &mut TimeSlot,
    escrow: &mut Escrow,
    buyer: AccountId,
    amount: u64,
) -> (r: Result<(), ErrorCode>)
    requires
        slot_wf(*old(slot)),
    ensures
        r == stable_reserve_check(*old(slot), *old(escrow), amount),
        r is Ok ==> *final(slot) == (TimeSlot { state: SlotState::Reserved, ..*old(slot) })
            && *final(escrow) == (Escrow {
            amount_locked: (old(escrow).amount_locked + amount) as u64,
            buyer: Some(buyer),
        }),
        r is Err ==> *final(slot) == *old(slot) && *final(escrow) == *old(escrow),
        is_terminal(old(slot).state) ==> r is Err,
        slot_wf(*final(slot)),
{
    if slot.mode != Mode::Stable {
        return Err(ErrorCode::WrongMode);
    }
    if slot.state != SlotState::Open {
        return Err(ErrorCode::InvalidState);
    }
    if amount != slot.price {
        return Err(ErrorCode::InvalidPrice);
    }
    if !(slot.capacity_sold < slot.capacity_total) {
        return Err(ErrorCode::CapacityExhausted);
    }
    let locked = match escrow.amount_locked.checked_add(amount) {
        Some(v) => v,
        None => {
            return Err(ErrorCode::Overflow);
        },
    };
    escrow.amount_locked = locked;
    escrow.buyer = Some(buyer);
    slot.state = SlotState::Reserved;
    Ok(())
}

/// Validation of `stable_cancel`; on acceptance, the full locked amount
/// owed back to the buyer.
pub open spec fn stable_cancel_check(
    slot: TimeSlot,
    escrow: Escrow,
    buyer: AccountId,
    now: i64,
) -> Result<u64, ErrorCode> {
    if slot.frozen {
        Err(ErrorCode::Frozen)
    } else if !(slot.mode is Stable) {
        Err(ErrorCode::WrongMode)
    } else if !(slot.state is Reserved) {
        Err(ErrorCode::InvalidState)
    } else if !((now as int) < spec_t0_ts(slot)) {
        Err(ErrorCode::TooLate)
    } else if escrow.buyer is None {
        Err(ErrorCode::NotReserved)
    } else if escrow.buyer->0 != buyer {
        Err(ErrorCode::UnauthorizedBuyer)
    } else if escrow.amount_locked == 0 {
        Err(ErrorCode::NothingToRefund)
    } else {
        Ok(escrow.amount_locked)
    }
}

/// Cancel a stable reservation strictly before the T0 deadline: only the
/// recorded buyer may cancel; the full locked amount is owed back to them
/// and the slot reopens.  The host must move the returned amount from
/// escrow back to the buyer exactly when this returns `Ok`.
pub fn stable_cancel(slot: &mut TimeSlot, escrow: &mut Escrow, buyer: AccountId, now: i64) -> (r:
    Result<u64, ErrorCode>)
    requires
        slot_wf(*old(slot)),
    ensures
        r == stable_cancel_check(*old(slot), *old(escrow), buyer, now),
        r is Ok ==> *final(slot) == (TimeSlot { state: SlotState::Open, ..*old(slot) })
            && *final(escrow) == (Escrow { amount_locked: 0, buyer: None }),
        r is Err ==> *final(slot) == *old(slot) && *final(escrow) == *old(escrow),
        is_terminal(old(slot).state) ==> r is Err,
        old(slot).frozen ==> r is Err,
        slot_wf(*final(slot)),
{
    if slot.frozen {
        return Err(ErrorCode::Frozen);
    }
    if slot.mode != Mode::Stable {
        return Err(ErrorCode::WrongMode);
    }
    if slot.state != SlotState::Reserved {
        return Err(ErrorCode::InvalidState);
    }
    let t0 = t0_ts(slot);
    if !(now < t0) {
        return Err(ErrorCode::TooLate);
    }
    let recorded = match escrow.buyer {
        Some(b) => b,
        None => {
            return Err(ErrorCode::NotReserved);
        },
    };
    if recorded != buyer {
        return Err(ErrorCode::UnauthorizedBuyer);
    }
    let amount = escrow.amount_locked;
    if amount == 0 {
        return Err(ErrorCode::NothingToRefund);
    }
    escrow.amount_locked = 0;
    escrow.buyer = None;
    slot.state = SlotState::Open;
    Ok(amount)
}

/// Validation of `stable_checkin`.
pub open spec fn stable_checkin_check(slot: TimeSlot, escrow: Escrow, signer: AccountId) -> Result<
    (),
    ErrorCode,
> {
    if slot.frozen {
        Err(ErrorCode::Frozen)
    } else if !(slot.mode is Stable) {
        Err(ErrorCode::WrongMode)
    } else if !(slot.state is Reserved || slot.state is Locked) {
        Err(ErrorCode::InvalidState)
    } else if escrow.buyer is None {
        Err(ErrorCode::NotReserved)
    } else if escrow.buyer->0 != signer && slot.creator_authority != signer {
        Err(ErrorCode::Unauthorized)
    } else {
        Ok(())
    }
}

/// The capacity counter after a successful check-in: one more unit sold,
/// capped at the total.
pub open spec fn capacity_after_checkin(s: TimeSlot) -> u16 {
    if s.capacity_sold < s.capacity_total {
        (s.capacity_sold + 1) as u16
    } else {
        s.capacity_sold
    }
}

/// Record the buyer's check-in on a stable slot: callable by the buyer or
/// the creator, from `Reserved` or `Locked`; the slot moves to `Completed`
/// and one more unit counts as sold.  When the slot configures a
/// collectible, the host mints it to the buyer on success.
pub fn stable_checkin(slot: &mut TimeSlot, escrow: &Escrow, signer: AccountId) -> (r: Result<
    (),
    ErrorCode,
>)
    requires
        slot_wf(*old(slot)),
    ensures
        r == stable_checkin_check(*old(slot), *escrow, signer),
        r is Ok ==> *final(slot) == (TimeSlot {
            state: SlotState::Completed,
            buyer_checked_in: true,
            capacity_sold: capacity_after_checkin(*old(slot)),
            ..*old(slot)
        }),
        r is Err ==> *final(slot) == *old(slot),
        final(slot).capacity_sold >= old(slot).capacity_sold,
        final(slot).capacity_total == old(slot).capacity_total,
        is_terminal(old(slot).state) ==> r is Err,
        old(slot).frozen ==> r is Err,
        slot_wf(*final(slot)),
{
    if slot.frozen {
        return Err(ErrorCode::Frozen);
    }
    if slot.mode != Mode::Stable {
        return Err(ErrorCode::WrongMode);
    }
    if !(slot.state == SlotState::Reserved || slot.state == SlotState::Locked) {
        return Err(ErrorCode::InvalidState);
    }
    let buyer = match escrow.buyer {
        Some(b) => b,
        None => {
            return Err(ErrorCode::NotReserved);
        },
    };
    if !(signer == buyer || signer == slot.creator_authority) {
        return Err(ErrorCode::Unauthorized);
    }
    slot.buyer_checked_in = true;
    slot.state = SlotState::Completed;
    if slot.capacity_sold < slot.capacity_total {
        slot.capacity_sold = slot.capacity_sold + 1;
    }
    Ok(())
}

/// What `stable_settle` paid out: the T0 milestone or the final one.
#[derive(Clone, Copy, Debug, PartialEq, Eq, Structural)]
pub enum StableSettleOutcome {
    /// The T0 milestone was released; the slot is now `Locked`.
    T0(T0Payout),
    /// The final milestone was released; the slot is now `Settled`.
    T1(T1Payout),
}

/// Validation and result of `stable_settle`, with the error each rejected
/// input produces and the exact payout otherwise.
pub open spec fn stable_settle_check(
    platform: Platform,
    profile: CreatorProfile,
    slot: TimeSlot,
    escrow: Escrow,
    now: i64,
) -> Result<StableSettleOutcome, ErrorCode> {
    let fee = eff_fee_bps(platform, profile);
    let price = slot.price as int;
    if !(slot.mode is Stable) {
        Err(ErrorCode::WrongMode)
    } else if slot.frozen {
        Err(ErrorCode::Frozen)
    } else if slot.state is Reserved {
        if escrow.amount_locked != slot.price {
            Err(ErrorCode::InvalidEscrowBalance)
        } else if (now as int) < spec_t0_ts(slot) {
            Err(ErrorCode::TooEarly)
        } else {
            Ok(
                StableSettleOutcome::T0(
                    T0Payout {
                        creator_amount: spec_t0_creator(price, fee, STABLE_T0_BPS as int) as u64,
                        fee_amount: spec_t0_fee(price, fee, STABLE_T0_BPS as int) as u64,
                    },
                ),
            )
        }
    } else if slot.state is Completed {
        let t1_base = spec_t1_base(price, STABLE_T0_BPS as int);
        if spec_t1_fee(t1_base, fee) > spec_t1_release(t1_base) {
            Err(ErrorCode::Overflow)
        } else if (escrow.amount_locked as int) < t1_base {
            Err(ErrorCode::InvalidEscrowBalance)
        } else {
            Ok(
                StableSettleOutcome::T1(
                    T1Payout {
                        creator_amount: spec_t1_creator(t1_base, fee) as u64,
                        fee_amount: spec_t1_fee(t1_base, fee) as u64,
                        withheld_amount: spec_t1_withhold(t1_base) as u64,
                    },
                ),
            )
        }
    } else {
        Err(ErrorCode::InvalidState)
    }
}

/// Settle a stable slot at its current milestone.
///
/// From `Reserved`, at or after the T0 deadline and with the escrow
/// holding exactly the price: releases half the price, split between the
/// creator and the fee vault pro rata to the effective fee, and moves the
/// slot to `Locked`.  From `Completed`: releases 98% of the remaining
/// base to the creator and fee vault, withholds the rest into the dispute
/// vault, and moves the slot to `Settled`.  Any other state is rejected.
/// The host must pay the returned amounts out of escrow exactly when this
/// returns `Ok`.
pub fn stable_settle(
    platform: &Platform,
    profile: &CreatorProfile,
    slot: &mut TimeSlot,
    escrow: &mut Escrow,
    now: i64,
) -> (r: Result<StableSettleOutcome, ErrorCode>)
    requires
        slot_wf(*old(slot)),
        platform_wf(*platform),
        profile_wf(*profile),
    ensures
        r == stable_settle_check(*platform, *profile, *old(slot), *old(escrow), now),
        r matches Ok(StableSettleOutcome::T0(p)) ==> *final(slot) == (TimeSlot {
            state: SlotState::Locked,
            ..*old(slot)
        }) && *final(escrow) == (Escrow {
            amount_locked: (old(escrow).amount_locked - p.creator_amount - p.fee_amount) as u64,
            ..*old(escrow)
        }),
        r matches Ok(StableSettleOutcome::T1(p)) ==> *final(slot) == (TimeSlot {
            state: SlotState::Settled,
            ..*old(slot)
        }) && *final(escrow) == (Escrow {
            amount_locked: (old(escrow).amount_locked - p.creator_amount - p.fee_amount
                - p.withheld_amount) as u64,
            ..*old(escrow)
        }),
        r is Err ==> *final(slot) == *old(slot) && *final(escrow) == *old(escrow),
        is_terminal(old(slot).state) ==> r is Err,
        old(slot).frozen ==> r is Err,
        slot_wf(*final(slot)),
{
    let fee = effective_fee_bps(platform, profile);
    if slot.mode != Mode::Stable {
        return Err(ErrorCode::WrongMode);
    }
    if slot.frozen {
        return Err(ErrorCode::Frozen);
    }
    match slot.state {
        SlotState::Reserved => {
            if escrow.amount_locked != slot.price {
                return Err(ErrorCode::InvalidEscrowBalance);
            }
            let t0 = t0_ts(slot);
            if now < t0 {
                return Err(ErrorCode::TooEarly);
            }
            let p = compute_t0_payout(slot.price, fee, STABLE_T0_BPS);
            escrow.amount_locked = escrow.amount_locked - (p.creator_amount + p.fee_amount);
            slot.state = SlotState::Locked;
            Ok(StableSettleOutcome::T0(p))
        },
        SlotState::Completed => {
            let t0_base = mul_bps_le_denom(slot.price, STABLE_T0_BPS);
            proof {
                lemma_mul_bps_bound(slot.price as int, STABLE_T0_BPS as int);
            }
            let t1_base = slot.price - t0_base;
            let p = match compute_t1_payout(t1_base, fee) {
                Ok(p) => p,
                Err(e) => {
                    return Err(e);
                },
            };
            let total_out = p.creator_amount + p.fee_amount + p.withheld_amount;
            if escrow.amount_locked < total_out {
                return Err(ErrorCode::InvalidEscrowBalance);
            }
            escrow.amount_locked = escrow.amount_locked - total_out;
            slot.state = SlotState::Settled;
            Ok(StableSettleOutcome::T1(p))
        },
        _ => Err(ErrorCode::InvalidState),
    }
}

/// What `close_slot` did: a plain close, or a full refund of the locked
/// escrow to its buyer.
#[derive(Clone, Copy, Debug, PartialEq, Eq, Structural)]
pub enum CloseOutcome {
    /// No buyer held locked funds; the slot is now `Closed`.
    Closed,
    /// The named buyer is owed the full remaining escrow; the slot is now
    /// `Refunded`.
    RefundedToBuyer { buyer: AccountId, amount: u64 },
}

/// Validation and result of `close_slot`.
pub open spec fn close_slot_check(
    platform: Platform,
    slot: TimeSlot,
    escrow: Escrow,
    authority: AccountId,
) -> Result<CloseOutcome, ErrorCode> {
    if platform.admin != authority && slot.creator_authority != authority {
        Err(ErrorCode::Unauthorized)
    } else if slot.frozen {
        Err(ErrorCode::Frozen)
    } else if is_terminal(slot.state) {
        Err(ErrorCode::InvalidState)
    } else if escrow.buyer is Some && escrow.amount_locked > 0 {
        Ok(CloseOutcome::RefundedToBuyer { buyer: escrow.buyer->0, amount: escrow.amount_locked })
    } else {
        Ok(CloseOutcome::Closed)
    }
}

/// Close a slot early: callable by the platform admin or the creator, not
/// while frozen, and not once the slot reached a terminal state.  When a
/// buyer holds locked escrow the full remaining amount is owed back to
/// them and the slot ends `Refunded`; otherwise it ends `Closed`.  The
/// host must move the reported refund out of escrow exactly when one is
/// returned.
pub fn close_slot(
    platform: &Platform,
    slot: &mut TimeSlot,
    escrow: &mut Escrow,
    authority: AccountId,
) -> (r: Result<CloseOutcome, ErrorCode>)
    requires
        slot_wf(*old(slot)),
    ensures
        r == close_slot_check(*platform, *old(slot), *old(escrow), authority),
        r matches Ok(CloseOutcome::RefundedToBuyer { buyer, amount }) ==> *final(slot) == (TimeSlot {
            state: SlotState::Refunded,
            ..*old(slot)
        }) && *final(escrow) == (Escrow { amount_locked: 0, buyer: None }),
        r == Ok::<CloseOutcome, ErrorCode>(CloseOutcome::Closed) ==> *final(slot) == (TimeSlot {
            state: SlotState::Closed,
            ..*old(slot)
        }) && *final(escrow) == *old(escrow),
        r is Err ==> *final(slot) == *old(slot) && *final(escrow) == *old(escrow),
        is_terminal(old(slot).state) ==> r is Err,
        old(slot).frozen ==> r is Err,
        slot_wf(*final(slot)),
{
    if !(platform.admin == authority || slot.creator_authority == authority) {
        return Err(ErrorCode::Unauthorized);
    }
    if slot.frozen {
        return Err(ErrorCode::Frozen);
    }
    if slot.state == SlotState::Settled || slot.state == SlotState::Refunded || slot.state
        == SlotState::Closed {
        return Err(ErrorCode::InvalidState);
    }
    let has_funds = match escrow.buyer {
        Some(_) => escrow.amount_locked > 0,
        None => false,
    };
    if has_funds {
        let buyer = match escrow.buyer {
            Some(b) => b,
            None => {
                return Err(ErrorCode::NotReserved);
            },
        };
        let amount = escrow.amount_locked;
        escrow.amount_locked = 0;
        escrow.buyer = None;
        slot.state = SlotState::Refunded;
        Ok(CloseOutcome::RefundedToBuyer { buyer, amount })
    } else {
        slot.state = SlotState::Closed;
        Ok(CloseOutcome::Closed)
    }
}

} // verus!
