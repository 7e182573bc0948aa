//! Fee policy and basis-point arithmetic.
//!
//! All percentage math is `amount * bps / 10_000`, computed in a wider
//! integer type so the product cannot wrap, and failing with an overflow
//! error where the result does not fit a `u64`.

use vstd::prelude::*;

use crate::errors::ErrorCode;
use crate::market::{CreatorProfile, Platform};
use crate::{AUCTION_T0_BPS, BPS_DENOM, FINAL_RELEASE_BPS, STABLE_T0_BPS};
use vstd::arithmetic::div_mod::{lemma_div_by_multiple, lemma_div_is_ordered, lemma_div_pos_is_pos};
use vstd::arithmetic::mul::{lemma_mul_inequality, lemma_mul_nonnegative, lemma_mul_upper_bound};

verus! {

/// `amount * bps / 10_000`, rounded toward zero, over unbounded integers.
pub open spec fn mul_bps(amount: int, bps: int) -> int {
    amount * bps / (BPS_DENOM as int)
}

/// With `bps` at most one whole (10,000), the scaled amount never exceeds
/// the amount itself and never goes negative.
pub proof fn lemma_mul_bps_bound(amount: int, bps: int)
    requires
        0 <= amount,
        0 <= bps <= BPS_DENOM as int,
    ensures
        0 <= mul_bps(amount, bps) <= amount,
{
    lemma_mul_nonnegative(amount, bps);
    lemma_div_pos_is_pos(amount * bps, BPS_DENOM as int);
    lemma_mul_inequality(bps, BPS_DENOM as int, amount);
    lemma_div_is_ordered(amount * bps, amount * (BPS_DENOM as int), BPS_DENOM as int);
    lemma_div_by_multiple(amount, BPS_DENOM as int);
}

/// Scaling by a fixed rate is monotone in the amount.
pub proof fn lemma_mul_bps_mono_amount(a1: int, a2: int, bps: int)
    requires
        0 <= a1 <= a2,
        0 <= bps,
    ensures
        mul_bps(a1, bps) <= mul_bps(a2, bps),
{
    lemma_mul_inequality(a1, a2, bps);
    lemma_div_is_ordered(a1 * bps, a2 * bps, BPS_DENOM as int);
}

/// `amount * bps / 10_000`, failing with an overflow error exactly when the
/// mathematical result does not fit a `u64`.
pub fn mul_bps_u64(amount: u64, bps: u64) -> (r: Result<u64, ErrorCode>)
    ensures
        mul_bps(amount as int, bps as int) <= u64::MAX ==> r == Ok::<u64, ErrorCode>(
            mul_bps(amount as int, bps as int) as u64,
        ),
        mul_bps(amount as int, bps as int) > u64::MAX ==> r == Err::<u64, ErrorCode>(
            ErrorCode::Overflow,
        ),
{
    proof {
        lemma_mul_upper_bound(amount as int, u64::MAX as int, bps as int, u64::MAX as int);
        lemma_mul_nonnegative(amount as int, bps as int);
        lemma_div_pos_is_pos(amount as int * bps as int, BPS_DENOM as int);
    }
    let prod: u128 = (amount as u128) * (bps as u128);
    let v: u128 = prod / (BPS_DENOM as u128);
    if v > u64::MAX as u128 {
        Err(ErrorCode::Overflow)
    } else {
        Ok(v as u64)
    }
}

/// Like `mul_bps_u64`, for the rates of at most one whole that the
/// settlement formulas use; such a scaling always fits.
pub(crate) fn mul_bps_le_denom(amount: u64, bps: u64) -> (r: u64)
    requires
        bps <= BPS_DENOM,
    ensures
        r as int == mul_bps(amount as int, bps as int),
{
    proof {
        lemma_mul_bps_bound(amount as int, bps as int);
    }
    let prod: u128 = (amount as u128) * (bps as u128);
    (prod / (BPS_DENOM as u128)) as u64
}

/// The fee rate that applies to a creator: the per-creator override when
/// present, the platform default otherwise.
pub open spec fn eff_fee_bps(platform: Platform, profile: CreatorProfile) -> int {
    match profile.fee_bps_override {
        Some(b) => b as int,
        None => platform.platform_fee_bps as int,
    }
}

/// Resolve the effective fee in basis points for a creator.
pub fn effective_fee_bps(platform: &Platform, profile: &CreatorProfile) -> (r: u16)
    ensures
        r as int == eff_fee_bps(*platform, *profile),
{
    match profile.fee_bps_override {
        Some(b) => b,
        None => platform.platform_fee_bps,
    }
}

/// Amounts paid out of escrow at the T0 milestone.
#[derive(Clone, Copy, Debug, PartialEq, Eq, Structural)]
pub struct T0Payout {
    /// Paid to the creator's payout wallet.
    pub creator_amount: u64,
    /// Paid to the platform's fee vault.
    pub fee_amount: u64,
}

/// Amounts paid out of escrow at the final (T1) milestone.
#[derive(Clone, Copy, Debug, PartialEq, Eq, Structural)]
pub struct T1Payout {
    /// Paid to the creator's payout wallet.
    pub creator_amount: u64,
    /// Paid to the platform's fee vault.
    pub fee_amount: u64,
    /// Withheld into the platform's dispute vault.
    pub withheld_amount: u64,
}

/// Total fee owed on the full price at the effective rate.
pub open spec fn spec_total_fee(price: int, fee_bps: int) -> int {
    mul_bps(price, fee_bps)
}

/// Share of the price released at T0.
pub open spec fn spec_t0_base(price: int, t0_bps: int) -> int {
    mul_bps(price, t0_bps)
}

/// Share of the total fee collected at T0.
pub open spec fn spec_t0_fee(price: int, fee_bps: int, t0_bps: int) -> int {
    mul_bps(spec_total_fee(price, fee_bps), t0_bps)
}

/// What the creator receives at T0: the T0 base minus the T0 fee.
pub open spec fn spec_t0_creator(price: int, fee_bps: int, t0_bps: int) -> int {
    spec_t0_base(price, t0_bps) - spec_t0_fee(price, fee_bps, t0_bps)
}

/// What remains owed after T0: the price minus the T0 base.
pub open spec fn spec_t1_base(price: int, t0_bps: int) -> int {
    price - spec_t0_base(price, t0_bps)
}

/// Share of the T1 base released at final settlement.
pub open spec fn spec_t1_release(t1_base: int) -> int {
    mul_bps(t1_base, FINAL_RELEASE_BPS as int)
}

/// Share of the T1 base withheld into the dispute vault.
pub open spec fn spec_t1_withhold(t1_base: int) -> int {
    t1_base - spec_t1_release(t1_base)
}

/// Fee collected on the T1 base at the effective rate.
pub open spec fn spec_t1_fee(t1_base: int, fee_bps: int) -> int {
    mul_bps(t1_base, fee_bps)
}

/// What the creator receives at T1: the release minus the T1 fee.
pub open spec fn spec_t1_creator(t1_base: int, fee_bps: int) -> int {
    spec_t1_release(t1_base) - spec_t1_fee(t1_base, fee_bps)
}

/// Compute the T0 payout for a price at the effective fee rate.  Both
/// rates are at most one whole, so the amounts always fit and the fee
/// share never exceeds the base.
pub fn compute_t0_payout(price: u64, fee_bps: u16, t0_bps: u64) -> (p: T0Payout)
    requires
        fee_bps as int <= BPS_DENOM as int,
        t0_bps <= BPS_DENOM,
    ensures
        p.creator_amount as int == spec_t0_creator(price as int, fee_bps as int, t0_bps as int),
        p.fee_amount as int == spec_t0_fee(price as int, fee_bps as int, t0_bps as int),
        p.creator_amount + p.fee_amount == spec_t0_base(price as int, t0_bps as int),
        p.creator_amount + p.fee_amount <= price,
{
    let total_fee = mul_bps_le_denom(price, fee_bps as u64);
    let t0_base = mul_bps_le_denom(price, t0_bps);
    let t0_fee = mul_bps_le_denom(total_fee, t0_bps);
    proof {
        lemma_mul_bps_bound(price as int, fee_bps as int);
        lemma_mul_bps_bound(price as int, t0_bps as int);
        lemma_mul_bps_mono_amount(total_fee as int, price as int, t0_bps as int);
    }
    T0Payout { creator_amount: t0_base - t0_fee, fee_amount: t0_fee }
}

/// Compute the T1 payout on the remaining base at the effective fee rate.
/// Fails with an overflow error exactly when the fee share exceeds the
/// released share, which leaves nothing to pay the creator.
pub fn compute_t1_payout(t1_base: u64, fee_bps: u16) -> (r: Result<T1Payout, ErrorCode>)
    requires
        fee_bps as int <= BPS_DENOM as int,
    ensures
        spec_t1_fee(t1_base as int, fee_bps as int) <= spec_t1_release(t1_base as int) ==> r
            == Ok::<T1Payout, ErrorCode>(
            (T1Payout {
                creator_amount: spec_t1_creator(t1_base as int, fee_bps as int) as u64,
                fee_amount: spec_t1_fee(t1_base as int, fee_bps as int) as u64,
                withheld_amount: spec_t1_withhold(t1_base as int) as u64,
            }),
        ),
        spec_t1_fee(t1_base as int, fee_bps as int) > spec_t1_release(t1_base as int) ==> r
            == Err::<T1Payout, ErrorCode>(ErrorCode::Overflow),
        r matches Ok(p) ==> p.creator_amount + p.fee_amount + p.withheld_amount == t1_base,
{
    let release = mul_bps_le_denom(t1_base, FINAL_RELEASE_BPS);
    let fee = mul_bps_le_denom(t1_base, fee_bps as u64);
    proof {
        lemma_mul_bps_bound(t1_base as int, FINAL_RELEASE_BPS as int);
        lemma_mul_bps_bound(t1_base as int, fee_bps as int);
    }
    if fee > release {
        return Err(ErrorCode::Overflow);
    }
    let withhold = t1_base - release;
    Ok(T1Payout { creator_amount: release - fee, fee_amount: fee, withheld_amount: withhold })
}

} // verus!
