//! Basis-point arithmetic, fee policy, and record constructors.

use timemarket::errors::ErrorCode;
use timemarket::fees::{effective_fee_bps, mul_bps_u64};
use timemarket::market::{init_creator_profile, init_platform, update_creator_profile};

fn platform_fee(bps: u16) -> timemarket::market::Platform {
    init_platform(1, bps, 900, 901, 902).unwrap()
}

fn profile_with_override(fee: Option<u16>) -> timemarket::market::CreatorProfile {
    init_creator_profile(10, 11, fee, 100).unwrap()
}

#[test]
fn mul_bps_exact_values() {
    assert_eq!(mul_bps_u64(1000, 500), Ok(50));
    assert_eq!(mul_bps_u64(1000, 5000), Ok(500));
    assert_eq!(mul_bps_u64(150, 4000), Ok(60));
    assert_eq!(mul_bps_u64(90, 9800), Ok(88));
    assert_eq!(mul_bps_u64(0, 10_000), Ok(0));
    assert_eq!(mul_bps_u64(7, 0), Ok(0));
    assert_eq!(mul_bps_u64(u64::MAX, 10_000), Ok(u64::MAX));
}

#[test]
fn mul_bps_rounds_toward_zero() {
    assert_eq!(mul_bps_u64(999, 500), Ok(49));
    assert_eq!(mul_bps_u64(1, 9999), Ok(0));
}

#[test]
fn mul_bps_overflow_is_rejected() {
    assert_eq!(mul_bps_u64(u64::MAX, 20_000), Err(ErrorCode::Overflow));
    assert_eq!(mul_bps_u64(u64::MAX / 2 + 1, 20_001), Err(ErrorCode::Overflow));
}

#[test]
fn effective_fee_uses_override_when_present() {
    let platform = platform_fee(500);
    let with_override = profile_with_override(Some(250));
    let without_override = profile_with_override(None);
    assert_eq!(effective_fee_bps(&platform, &with_override), 250);
    assert_eq!(effective_fee_bps(&platform, &without_override), 500);
}

#[test]
fn init_platform_rejects_bad_bps() {
    assert_eq!(init_platform(1, 10_001, 900, 901, 902).unwrap_err(), ErrorCode::InvalidBps);
    let p = init_platform(1, 10_000, 900, 901, 902).unwrap();
    assert_eq!(p.admin, 1);
    assert_eq!(p.platform_fee_bps, 10_000);
    assert_eq!(p.fee_vault, 901);
    assert_eq!(p.dispute_vault, 902);
}

#[test]
fn init_creator_profile_rejects_bad_override() {
    assert_eq!(init_creator_profile(10, 11, Some(10_001), 100).unwrap_err(), ErrorCode::InvalidBps);
    let p = init_creator_profile(10, 11, Some(10_000), 100).unwrap();
    assert_eq!(p.fee_bps_override, Some(10_000));
    assert_eq!(p.total_tips_received, 0);
    assert_eq!(p.tip_count, 0);
}

#[test]
fn update_creator_profile_applies_requested_changes() {
    let mut p = profile_with_override(None);
    update_creator_profile(&mut p, Some(77), Some(Some(300))).unwrap();
    assert_eq!(p.payout_wallet, 77);
    assert_eq!(p.fee_bps_override, Some(300));

    update_creator_profile(&mut p, None, Some(None)).unwrap();
    assert_eq!(p.payout_wallet, 77);
    assert_eq!(p.fee_bps_override, None);

    update_creator_profile(&mut p, Some(88), None).unwrap();
    assert_eq!(p.payout_wallet, 88);
    assert_eq!(p.fee_bps_override, None);
}

#[test]
fn update_creator_profile_rejects_bad_override() {
    let mut p = profile_with_override(Some(300));
    let r = update_creator_profile(&mut p, Some(77), Some(Some(10_001)));
    assert_eq!(r.unwrap_err(), ErrorCode::InvalidBps);
    assert_eq!(p.payout_wallet, 11);
    assert_eq!(p.fee_bps_override, Some(300));
}
