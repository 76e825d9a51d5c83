//! The laws of the claim ledger, stated over whole records and whole
//! histories and proved once and for all: monotonicity and day-unit
//! alignment of the watermark, conservation of unclaimed credit, the
//! first-claim grant, the exact claim boundary, and the rounding-down of
//! partial days.

use vstd::prelude::*;

use crate::gate::SECS_PER_DAY;
use crate::gate::advanced_watermark;
use crate::gate::baseline_of;
use crate::gate::elapsed_days_of;
use crate::gate::gate_accepts;
use crate::gate::lemma_advanced_watermark_bounds;

verus! {

/// One claim attempt seen abstractly: the watermark after a request of
/// `claim_days` day-units at time `now`.  A rejected request — and any
/// request outside the positive clock readings the program accepts — leaves
/// the watermark unchanged, exactly as the transactional entry points do.
pub open spec fn claim_step(watermark: int, now: int, claim_days: int) -> int {
    if now > 0 && gate_accepts(watermark, now, claim_days) {
        advanced_watermark(watermark, now, claim_days)
    } else {
        watermark
    }
}

/// The watermark after a whole history of claim attempts, each a pair of
/// (clock reading, requested day-units), applied oldest first.
pub open spec fn watermark_after(watermark: int, attempts: Seq<(int, int)>) -> int
    decreases attempts.len(),
{
    if attempts.len() == 0 {
        watermark
    } else {
        watermark_after(
            claim_step(watermark, attempts[0].0, attempts[0].1),
            attempts.drop_first(),
        )
    }
}

/// One attempt never moves the watermark backwards, keeps it a valid record
/// value, and — once the record is active — moves it by a whole multiple of
/// the day-unit.
pub proof fn lemma_claim_step_properties(watermark: int, now: int, claim_days: int)
    requires
        watermark >= 0,
    ensures
        watermark <= claim_step(watermark, now, claim_days),
        claim_step(watermark, now, claim_days) >= 0,
        watermark > 0 ==> claim_step(watermark, now, claim_days) > 0,
        watermark > 0 ==> (claim_step(watermark, now, claim_days) - watermark) % (
        SECS_PER_DAY as int) == 0,
{
    let day: int = SECS_PER_DAY as int;
    if now > 0 && gate_accepts(watermark, now, claim_days) {
        lemma_advanced_watermark_bounds(watermark, now, claim_days);
        if watermark > 0 {
            assert(claim_step(watermark, now, claim_days) - watermark == claim_days * day);
            vstd::arithmetic::div_mod::lemma_mod_multiples_basic(claim_days, day);
        }
    } else {
        vstd::arithmetic::div_mod::lemma_small_mod(0nat, day as nat);
    }
}

/// Across any history of claim attempts the watermark never decreases, never
/// leaves the valid range, and — measured from any point where the record
/// was already active — the total advance is a whole number of day-units.
pub proof fn lemma_watermark_monotonic(watermark: int, attempts: Seq<(int, int)>)
    requires
        watermark >= 0,
    ensures
        watermark <= watermark_after(watermark, attempts),
        watermark_after(watermark, attempts) >= 0,
        watermark > 0 ==> (watermark_after(watermark, attempts) - watermark) % (
        SECS_PER_DAY as int) == 0,
    decreases attempts.len(),
{
    let day: int = SECS_PER_DAY as int;
    if attempts.len() == 0 {
        vstd::arithmetic::div_mod::lemma_small_mod(0nat, day as nat);
    } else {
        let stepped: int = claim_step(watermark, attempts[0].0, attempts[0].1);
        lemma_claim_step_properties(watermark, attempts[0].0, attempts[0].1);
        lemma_watermark_monotonic(stepped, attempts.drop_first());
        if watermark > 0 {
            let rest: int = watermark_after(stepped, attempts.drop_first());
            vstd::arithmetic::div_mod::lemma_add_mod_noop(
                stepped - watermark,
                rest - stepped,
                day,
            );
            vstd::arithmetic::div_mod::lemma_small_mod(0nat, day as nat);
        }
    }
}

/// Unclaimed day-units never expire: a granted claim consumes exactly the
/// requested day-units, and every other accrued day-unit is still available
/// before any further time passes.
pub proof fn lemma_unclaimed_credit_is_kept(watermark: int, now: int, claim_days: int)
    requires
        watermark >= 0,
        now > 0,
        gate_accepts(watermark, now, claim_days),
    ensures
        advanced_watermark(watermark, now, claim_days) > 0,
        elapsed_days_of(advanced_watermark(watermark, now, claim_days), now) == elapsed_days_of(
            watermark,
            now,
        ) - claim_days,
{
    let day: int = SECS_PER_DAY as int;
    let baseline: int = baseline_of(watermark, now);
    let advanced: int = advanced_watermark(watermark, now, claim_days);
    lemma_advanced_watermark_bounds(watermark, now, claim_days);
    if now <= baseline {
        assert(elapsed_days_of(watermark, now) == 0);
    }
    let diff: int = now - baseline;
    let quotient: int = diff / day;
    let remainder: int = diff % day;
    vstd::arithmetic::div_mod::lemma_fundamental_div_mod(diff, day);
    vstd::arithmetic::div_mod::lemma_mod_bound(diff, day);
    assert(now - advanced == day * (quotient - claim_days) + remainder) by {
        vstd::arithmetic::mul::lemma_mul_is_distributive_sub(day, quotient, claim_days);
        vstd::arithmetic::mul::lemma_mul_is_commutative(claim_days, day);
    }
    if now > advanced {
        vstd::arithmetic::div_mod::lemma_div_multiples_vanish_fancy(
            quotient - claim_days,
            remainder,
            day,
        );
    } else {
        vstd::arithmetic::mul::lemma_mul_nonnegative(day, quotient - claim_days);
    }
}

/// No double spend: once one claim has consumed more than half of the
/// accrued credit — in particular all of it — repeating the very same
/// request before further time passes is rejected for lack of elapsed days.
pub proof fn lemma_repeat_claim_rejected(watermark: int, now: int, claim_days: int)
    requires
        watermark >= 0,
        now > 0,
        gate_accepts(watermark, now, claim_days),
        2 * claim_days > elapsed_days_of(watermark, now),
    ensures
        !gate_accepts(advanced_watermark(watermark, now, claim_days), now, claim_days),
{
    lemma_unclaimed_credit_is_kept(watermark, now, claim_days);
}

/// The first-claim grant: a brand-new record accrues exactly one day-unit at
/// any positive clock reading, and claiming it sets the watermark to `now`.
pub proof fn lemma_first_claim_grants_one_day(now: int)
    requires
        now > 0,
    ensures
        elapsed_days_of(0, now) == 1,
        gate_accepts(0, now, 1),
        !gate_accepts(0, now, 2),
        advanced_watermark(0, now, 1) == now,
{
    let day: int = SECS_PER_DAY as int;
    assert(now - baseline_of(0, now) == day);
    assert(day / day == 1) by {
        vstd::arithmetic::div_mod::lemma_div_multiples_vanish(1, day);
        vstd::arithmetic::mul::lemma_mul_basics(day);
    }
}

/// The claim boundary: exactly the accrued credit may be claimed — which
/// sets the watermark to the last whole day-unit boundary past the baseline,
/// never to `now` itself — and one day-unit more is rejected.
pub proof fn lemma_claim_boundary(watermark: int, now: int)
    requires
        watermark >= 0,
        now > 0,
        elapsed_days_of(watermark, now) > 0,
    ensures
        gate_accepts(watermark, now, elapsed_days_of(watermark, now)),
        !gate_accepts(watermark, now, elapsed_days_of(watermark, now) + 1),
        advanced_watermark(watermark, now, elapsed_days_of(watermark, now)) == baseline_of(
            watermark,
            now,
        ) + elapsed_days_of(watermark, now) * (SECS_PER_DAY as int),
{
}

/// Partial days never round up: from an active watermark, a history that is
/// some whole number of day-units plus a fraction of one accrues exactly
/// that whole number.
pub proof fn lemma_partial_days_never_round_up(watermark: int, whole_days: int, extra: int)
    requires
        watermark > 0,
        whole_days >= 0,
        0 <= extra < SECS_PER_DAY as int,
    ensures
        elapsed_days_of(watermark, watermark + whole_days * (SECS_PER_DAY as int) + extra)
            == whole_days,
{
    let day: int = SECS_PER_DAY as int;
    let now: int = watermark + whole_days * day + extra;
    vstd::arithmetic::mul::lemma_mul_nonnegative(whole_days, day);
    assert(now - watermark == day * whole_days + extra) by {
        vstd::arithmetic::mul::lemma_mul_is_commutative(whole_days, day);
    }
    if now > watermark {
        vstd::arithmetic::div_mod::lemma_div_multiples_vanish_fancy(whole_days, extra, day);
    } else {
        vstd::arithmetic::mul::lemma_mul_nonnegative(day, whole_days);
    }
}

} // verus!
