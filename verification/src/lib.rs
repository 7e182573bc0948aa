//! Settlement core for a marketplace of bookable time slots.
//!
//! A slot is sold either at a fixed price (stable reservation), through an
//! English auction with an outbid-refund queue and proxy auto-bidding, or
//! through sealed commit-reveal bidding.  The buyer's payment is held in a
//! per-slot escrow and released in two milestones: a partial release at the
//! T0 time threshold and a final release after check-in, with a platform fee
//! taken pro rata and a fixed share withheld into a dispute vault.  A dispute
//! freezes the slot until an arbiter splits the remaining escrow.
//!
//! The library is pure settlement logic over plain values: every operation
//! validates its inputs, then either commits a state change and reports the
//! exact amounts that the host must move between accounts, or fails with a
//! typed error and leaves every record unchanged.  The host performs the
//! actual value transfers and supplies the current time.

use vstd::prelude::*;

pub mod auction;
pub mod dispute;
pub mod errors;
pub mod escrow;
pub mod fees;
pub mod laws;
pub mod market;
pub mod sealed;
pub mod slot;
pub mod tipping;

verus! {

/// Basis-point denominator: 10,000 bps = 100%.
pub const BPS_DENOM: u64 = 10_000;

/// Share of the price released at T0 for a stable reservation (50%).
pub const STABLE_T0_BPS: u64 = 5_000;

/// Share of the winning bid released at T0 for an auction (40%).
pub const AUCTION_T0_BPS: u64 = 4_000;

/// Share of the T1 base released at final settlement (98%); the remaining
/// 2% is withheld into the dispute vault as a standing reserve.
pub const FINAL_RELEASE_BPS: u64 = 9_800;

/// Identity of an account known to the host (buyer, creator, vault, mint).
/// The core only ever compares identities for equality.
pub type AccountId = u64;

} // verus!
