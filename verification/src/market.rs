//! Platform configuration and creator profiles.

use vstd::prelude::*;

use crate::errors::ErrorCode;
use crate::{AccountId, BPS_DENOM};

verus! {

/// Global configuration of one marketplace deployment.
#[derive(Clone, Copy, Debug)]
pub struct Platform {
    /// Identity whose signature authorizes admin-only operations.
    pub admin: AccountId,
    /// Default platform fee in basis points.
    pub platform_fee_bps: u16,
    /// The asset every price and payment on this platform is denominated in.
    pub mint: AccountId,
    /// Account that receives platform fees.
    pub fee_vault: AccountId,
    /// Account that receives withheld and disputed funds.
    pub dispute_vault: AccountId,
}

/// A platform is well formed when its default fee is at most one whole.
pub open spec fn platform_wf(p: Platform) -> bool {
    p.platform_fee_bps <= BPS_DENOM
}

/// Create the platform record, rejecting a default fee above 10,000 bps.
pub fn init_platform(
    admin: AccountId,
    platform_fee_bps: u16,
    mint: AccountId,
    fee_vault: AccountId,
    dispute_vault: AccountId,
) -> (r: Result<Platform, ErrorCode>)
    ensures
        platform_fee_bps <= BPS_DENOM ==> r == Ok::<Platform, ErrorCode>(
            (Platform { admin, platform_fee_bps, mint, fee_vault, dispute_vault }),
        ),
        platform_fee_bps > BPS_DENOM ==> r == Err::<Platform, ErrorCode>(ErrorCode::InvalidBps),
        r matches Ok(p) ==> platform_wf(p),
{
    if platform_fee_bps > 10_000 {
        return Err(ErrorCode::InvalidBps);
    }
    Ok(Platform { admin, platform_fee_bps, mint, fee_vault, dispute_vault })
}

/// Per-creator record: identity, payout destination, optional fee override,
/// and cumulative tip statistics.
#[derive(Clone, Copy, Debug)]
pub struct CreatorProfile {
    /// Identity whose signature authorizes creator-only operations.
    pub authority: AccountId,
    /// Account that receives the creator's payouts and tips.
    pub payout_wallet: AccountId,
    /// When present, replaces the platform's default fee for this creator.
    pub fee_bps_override: Option<u16>,
    /// The platform this profile belongs to.
    pub platform: AccountId,
    /// Sum of all tips this creator has received.
    pub total_tips_received: u64,
    /// Number of tips this creator has received.
    pub tip_count: u32,
}

/// A profile is well formed when its fee override, if any, is at most one
/// whole.
pub open spec fn profile_wf(p: CreatorProfile) -> bool {
    p.fee_bps_override matches Some(b) ==> b <= BPS_DENOM
}

/// Create a creator profile, rejecting a fee override above 10,000 bps.
/// Tip statistics start at zero.
pub fn init_creator_profile(
    authority: AccountId,
    payout_wallet: AccountId,
    fee_bps_override: Option<u16>,
    platform: AccountId,
) -> (r: Result<CreatorProfile, ErrorCode>)
    ensures
        (fee_bps_override matches Some(b) && b > BPS_DENOM) ==> r == Err::<
            CreatorProfile,
            ErrorCode,
        >(ErrorCode::InvalidBps),
        (fee_bps_override matches Some(b) ==> b <= BPS_DENOM) ==> r == Ok::<
            CreatorProfile,
            ErrorCode,
        >(
            (CreatorProfile {
                authority,
                payout_wallet,
                fee_bps_override,
                platform,
                total_tips_received: 0,
                tip_count: 0,
            }),
        ),
        r matches Ok(p) ==> profile_wf(p),
{
    if let Some(bps) = fee_bps_override {
        if bps > 10_000 {
            return Err(ErrorCode::InvalidBps);
        }
    }
    Ok(
        CreatorProfile {
            authority,
            payout_wallet,
            fee_bps_override,
            platform,
            total_tips_received: 0,
            tip_count: 0,
        },
    )
}

/// Update the payout wallet and/or the fee override of a profile.  The
/// outer `Option` of `new_fee_bps_override` distinguishes "leave as is"
/// from "set to this value", where the value `None` clears the override.
pub fn update_creator_profile(
    profile: &mut CreatorProfile,
    new_payout_wallet: Option<AccountId>,
    new_fee_bps_override: Option<Option<u16>>,
) -> (r: Result<(), ErrorCode>)
    requires
        profile_wf(*old(profile)),
    ensures
        (new_fee_bps_override matches Some(Some(b)) && b > BPS_DENOM) ==> r == Err::<
            (),
            ErrorCode,
        >(ErrorCode::InvalidBps) && *final(profile) == *old(profile),
        (new_fee_bps_override matches Some(Some(b)) ==> b <= BPS_DENOM) ==> r == Ok::<
            (),
            ErrorCode,
        >(()) && *final(profile) == (CreatorProfile {
            payout_wallet: match new_payout_wallet {
                Some(w) => w,
                None => old(profile).payout_wallet,
            },
            fee_bps_override: match new_fee_bps_override {
                Some(f) => f,
                None => old(profile).fee_bps_override,
            },
            ..*old(profile)
        }),
        profile_wf(*final(profile)),
{
    if let Some(Some(bps)) = new_fee_bps_override {
        if bps > 10_000 {
            return Err(ErrorCode::InvalidBps);
        }
    }
    if let Some(w) = new_payout_wallet {
        profile.payout_wallet = w;
    }
    if let Some(new_fee) = new_fee_bps_override {
        profile.fee_bps_override = new_fee;
    }
    Ok(())
}

} // verus!
