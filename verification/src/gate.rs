//! The elapsed-time gate: given the current time and a record's watermark,
//! how many whole day-units of credit have accrued, and what the watermark
//! becomes when some of that credit is claimed.

use vstd::prelude::*;

verus! {

/// Length of one day-unit in seconds: the sole granularity of claim accrual.
pub const SECS_PER_DAY: i64 = 86_400;

/// Why a claim was rejected by the program itself.
#[derive(Clone, Copy, Debug, PartialEq, Eq, Structural)]
pub enum ErrorCode {
    /// The requested day-unit count exceeds the accrued, unclaimed credit.
    NotEnoughElapsedDays,
    /// The caller asked to release zero day-units.
    ZeroDays,
}

/// The point in time that accrual is measured from.  A watermark of 0 marks a
/// record that has never been claimed; such a record is treated as if it had
/// last been claimed exactly one day-unit ago, which grants a brand-new
/// participant one immediately claimable day-unit.
pub open spec fn baseline_of(watermark: int, now: int) -> int {
    if watermark == 0 {
        now - SECS_PER_DAY
    } else {
        watermark
    }
}

/// Whole day-units accrued since the baseline.  Partial days never round up,
/// and a baseline in the future accrues nothing.
pub open spec fn elapsed_days_of(watermark: int, now: int) -> int {
    let baseline: int = baseline_of(watermark, now);
    if now > baseline {
        (now - baseline) / (SECS_PER_DAY as int)
    } else {
        0
    }
}

/// When a request is granted: the count is positive and within the accrued
/// credit.
pub open spec fn gate_accepts(watermark: int, now: int, claim_days: int) -> bool {
    0 < claim_days <= elapsed_days_of(watermark, now)
}

/// The watermark after a granted claim: the baseline advances by exactly the
/// claimed number of whole day-units — never to `now` itself, so unclaimed
/// day-units remain claimable later.
pub open spec fn advanced_watermark(watermark: int, now: int, claim_days: int) -> int {
    baseline_of(watermark, now) + claim_days * (SECS_PER_DAY as int)
}

/// Baseline as executable code.
pub fn compute_baseline(watermark: i64, now: i64) -> (baseline: i64)
    requires
        watermark >= 0,
        now > 0,
    ensures
        baseline == baseline_of(watermark as int, now as int),
{
    if watermark == 0 {
        now - SECS_PER_DAY
    } else {
        watermark
    }
}

/// Accrued whole day-units as executable code.
pub fn compute_elapsed_days(watermark: i64, now: i64) -> (days: u64)
    requires
        watermark >= 0,
        now > 0,
    ensures
        days == elapsed_days_of(watermark as int, now as int),
{
    let baseline: i64 = compute_baseline(watermark, now);
    if now > baseline {
        let diff: u64 = (now - baseline) as u64;
        diff / (SECS_PER_DAY as u64)
    } else {
        0
    }
}

/// Validate a requested day-unit count against the accrued credit and return
/// the advanced watermark, or the exact reason the request was rejected.
/// The record itself is not touched here.
pub fn evaluate_claim(watermark: i64, now: i64, claim_days: u64) -> (r: Result<i64, ErrorCode>)
    requires
        watermark >= 0,
        now > 0,
    ensures
        r is Ok <==> gate_accepts(watermark as int, now as int, claim_days as int),
        r is Ok ==> r->Ok_0 == advanced_watermark(watermark as int, now as int, claim_days as int),
        r is Ok ==> watermark < r->Ok_0 <= now,
        claim_days == 0 ==> r == Err::<i64, ErrorCode>(ErrorCode::ZeroDays),
        claim_days > 0 && !gate_accepts(watermark as int, now as int, claim_days as int) ==> r
            == Err::<i64, ErrorCode>(ErrorCode::NotEnoughElapsedDays),
{
    if claim_days == 0 {
        return Err(ErrorCode::ZeroDays);
    }
    let baseline: i64 = compute_baseline(watermark, now);
    let elapsed: u64 = compute_elapsed_days(watermark, now);
    if claim_days > elapsed {
        return Err(ErrorCode::NotEnoughElapsedDays);
    }
    proof {
        lemma_claim_days_fit(baseline as int, now as int, claim_days as int);
    }
    let advance: i64 = (claim_days as i64) * SECS_PER_DAY;
    Ok(baseline + advance)
}

/// A granted claim strictly advances the watermark, yet never past `now`:
/// no time is handed out that has not actually elapsed.
pub proof fn lemma_advanced_watermark_bounds(watermark: int, now: int, claim_days: int)
    requires
        watermark >= 0,
        now > 0,
        gate_accepts(watermark, now, claim_days),
    ensures
        watermark < advanced_watermark(watermark, now, claim_days) <= now,
{
    let baseline: int = baseline_of(watermark, now);
    if now <= baseline {
        assert(elapsed_days_of(watermark, now) == 0);
    }
    lemma_claim_days_fit(baseline, now, claim_days);
}

/// A granted count of day-units, measured against the accrued credit, always
/// advances the baseline by no more than the time that actually elapsed.
proof fn lemma_claim_days_fit(baseline: int, now: int, claim_days: int)
    requires
        now > baseline,
        0 < claim_days <= (now - baseline) / (SECS_PER_DAY as int),
    ensures
        SECS_PER_DAY <= claim_days * (SECS_PER_DAY as int) <= now - baseline,
{
    let day: int = SECS_PER_DAY as int;
    let diff: int = now - baseline;
    let quotient: int = diff / day;
    vstd::arithmetic::div_mod::lemma_fundamental_div_mod(diff, day);
    vstd::arithmetic::div_mod::lemma_mod_bound(diff, day);
    assert(quotient * day <= diff) by {
        vstd::arithmetic::mul::lemma_mul_is_commutative(day, quotient);
    }
    vstd::arithmetic::mul::lemma_mul_inequality(claim_days, quotient, day);
    vstd::arithmetic::mul::lemma_mul_inequality(1, claim_days, day);
}

} // verus!
