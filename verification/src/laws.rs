//! Laws of the settlement formulas, proved once and for all inputs.

use vstd::prelude::*;

use crate::auction::{proxy_rounds, spec_next_min, AutoBidEntry};
use crate::fees::{
    lemma_mul_bps_bound, lemma_mul_bps_mono_amount, spec_t0_creator, spec_t0_fee,
    spec_t1_base, spec_t1_creator, spec_t1_fee, spec_t1_release, spec_t1_withhold, spec_total_fee,
};
use crate::{AccountId, BPS_DENOM, STABLE_T0_BPS};

verus! {

/// The two milestones disburse the price exactly: what the creator and
/// the fee vault receive at T0, plus what the creator, the fee vault and
/// the dispute vault receive at T1, telescopes to the price — integer
/// arithmetic, with no residual dust beyond the final-release rounding
/// that the withheld share absorbs.
pub proof fn lemma_milestones_sum_to_price(price: int, fee_bps: int, t0_bps: int)
    ensures
        spec_t0_creator(price, fee_bps, t0_bps) + spec_t0_fee(price, fee_bps, t0_bps)
            + spec_t1_creator(spec_t1_base(price, t0_bps), fee_bps) + spec_t1_fee(
            spec_t1_base(price, t0_bps),
            fee_bps,
        ) + spec_t1_withhold(spec_t1_base(price, t0_bps)) == price,
{
}

/// For a stable slot fully settled without dispute, the five amounts the
/// two `stable_settle` milestones pay out — as the `u64` values their
/// outcomes carry — sum to the price exactly.  The precondition is
/// exactly what makes the final milestone succeed: the T1 fee share must
/// not exceed the released share.
pub proof fn lemma_stable_settlement_sums_to_price(price: u64, fee_bps: u16)
    requires
        fee_bps <= BPS_DENOM,
        spec_t1_fee(spec_t1_base(price as int, STABLE_T0_BPS as int), fee_bps as int)
            <= spec_t1_release(spec_t1_base(price as int, STABLE_T0_BPS as int)),
    ensures
        (spec_t0_creator(price as int, fee_bps as int, STABLE_T0_BPS as int) as u64) + (spec_t0_fee(
            price as int,
            fee_bps as int,
            STABLE_T0_BPS as int,
        ) as u64) + (spec_t1_creator(
            spec_t1_base(price as int, STABLE_T0_BPS as int),
            fee_bps as int,
        ) as u64) + (spec_t1_fee(
            spec_t1_base(price as int, STABLE_T0_BPS as int),
            fee_bps as int,
        ) as u64) + (spec_t1_withhold(spec_t1_base(price as int, STABLE_T0_BPS as int)) as u64)
            == price,
{
    let p = price as int;
    let f = fee_bps as int;
    let t0 = STABLE_T0_BPS as int;
    let t1b = spec_t1_base(p, t0);
    lemma_mul_bps_bound(p, t0);
    lemma_mul_bps_bound(p, f);
    lemma_mul_bps_bound(spec_total_fee(p, f), t0);
    lemma_mul_bps_mono_amount(spec_total_fee(p, f), p, t0);
    lemma_mul_bps_bound(t1b, crate::FINAL_RELEASE_BPS as int);
    lemma_mul_bps_bound(t1b, f);
    lemma_milestones_sum_to_price(p, f, t0);
}

/// Proxy resolution never lowers the standing bid: starting from a
/// highest bid and a next minimum at least as large, whatever leader and
/// amount come out, the amount is at least the highest bid that went in.
pub proof fn lemma_proxy_rounds_monotone(
    entries: Seq<AutoBidEntry>,
    leader: AccountId,
    highest: u64,
    next_min: u64,
    free: int,
    inc_bps: u16,
)
    requires
        next_min >= highest,
    ensures
        proxy_rounds(entries, leader, highest, next_min, free, inc_bps) matches Ok((l, h, refunds))
            ==> h >= highest,
    decreases (if next_min as int <= crate::auction::max_ceiling(entries, entries.len() as nat) {
        crate::auction::max_ceiling(entries, entries.len() as nat) + 1 - next_min as int
    } else {
        0int
    }),
{
    crate::auction::lemma_competitor_scan_bounds(
        entries,
        leader,
        next_min as int,
        entries.len() as nat,
    );
    match crate::auction::competitor_scan(entries, leader, next_min as int, entries.len() as nat) {
        None => {},
        Some(comp) => {
            if !(highest > 0 && free <= 0) {
                let new_next = spec_next_min(next_min, inc_bps);
                if !(new_next > u64::MAX as int) {
                    let free2 = if highest > 0 {
                        free - 1
                    } else {
                        free
                    };
                    lemma_proxy_rounds_monotone(
                        entries,
                        comp.bidder,
                        next_min,
                        new_next as u64,
                        free2,
                        inc_bps,
                    );
                }
            }
        },
    }
}

} // verus!
