use dlan_stake::gate::{compute_baseline, compute_elapsed_days, evaluate_claim, ErrorCode, SECS_PER_DAY};
use dlan_stake::record::{UserState, VipState};

#[test]
fn first_claim_scenario() {
    // A brand-new record at now = 1_000_000_000: the baseline is one
    // day-unit back, exactly one day-unit is claimable, and claiming it
    // sets the watermark to now.
    let now: i64 = 1_000_000_000;
    assert_eq!(compute_baseline(0, now), 999_913_600);
    assert_eq!(compute_elapsed_days(0, now), 1);
    assert_eq!(evaluate_claim(0, now, 1), Ok(now));
}

#[test]
fn first_claim_grants_exactly_one_day() {
    let now: i64 = 777_600_000;
    assert_eq!(compute_elapsed_days(0, now), 1);
    assert_eq!(evaluate_claim(0, now, 2), Err(ErrorCode::NotEnoughElapsedDays));
    assert_eq!(evaluate_claim(0, now, 1), Ok(now));
}

#[test]
fn zero_days_is_rejected_before_anything_else() {
    assert_eq!(evaluate_claim(0, 1_000_000_000, 0), Err(ErrorCode::ZeroDays));
    assert_eq!(evaluate_claim(500_000, 1_000_000_000, 0), Err(ErrorCode::ZeroDays));
}

#[test]
fn partial_extra_day_rounds_down() {
    // watermark = W, now = W + 3 days + 40_000 s: three whole day-units
    // have elapsed, not four.
    let w: i64 = 1_000_000;
    let now: i64 = w + 3 * SECS_PER_DAY + 40_000;
    assert_eq!(compute_elapsed_days(w, now), 3);
    assert_eq!(evaluate_claim(w, now, 4), Err(ErrorCode::NotEnoughElapsedDays));
    assert_eq!(evaluate_claim(w, now, 3), Ok(w + 3 * SECS_PER_DAY));
}

#[test]
fn boundary_claim_of_exact_credit() {
    // claim_days == elapsed_days succeeds and lands on the last whole
    // day-unit boundary past the baseline; one more day-unit fails.
    let w: i64 = 50_000_000;
    let now: i64 = w + 5 * SECS_PER_DAY;
    assert_eq!(compute_elapsed_days(w, now), 5);
    assert_eq!(evaluate_claim(w, now, 5), Ok(w + 5 * SECS_PER_DAY));
    assert_eq!(evaluate_claim(w, now, 6), Err(ErrorCode::NotEnoughElapsedDays));
}

#[test]
fn watermark_in_the_future_accrues_nothing() {
    let w: i64 = 2_000_000_000;
    let now: i64 = 1_000_000_000;
    assert_eq!(compute_elapsed_days(w, now), 0);
    assert_eq!(evaluate_claim(w, now, 1), Err(ErrorCode::NotEnoughElapsedDays));
}

#[test]
fn same_claim_twice_fails_once_credit_is_spent() {
    let now: i64 = 1_000_000_000;
    let mut record = UserState::new();
    assert_eq!(record.claim(now, 1), Ok(()));
    // No further time has elapsed: the same request must now fail.
    assert_eq!(record.claim(now, 1), Err(ErrorCode::NotEnoughElapsedDays));
    assert_eq!(record.last_invest_ts, now);
}

#[test]
fn unclaimed_days_never_expire() {
    // Ten day-units accrued, three claimed: exactly seven remain before
    // any further time passes.
    let w: i64 = 900_000_000;
    let now: i64 = w + 10 * SECS_PER_DAY;
    let mut record = UserState { last_invest_ts: w };
    assert_eq!(compute_elapsed_days(record.last_invest_ts, now), 10);
    assert_eq!(record.claim(now, 3), Ok(()));
    assert_eq!(compute_elapsed_days(record.last_invest_ts, now), 7);
    assert_eq!(record.claim(now, 8), Err(ErrorCode::NotEnoughElapsedDays));
    assert_eq!(record.claim(now, 7), Ok(()));
    assert_eq!(compute_elapsed_days(record.last_invest_ts, now), 0);
}

#[test]
fn watermark_is_monotonic_and_day_aligned_across_a_history() {
    let start: i64 = 700_000_000;
    let mut record = UserState { last_invest_ts: start };
    let attempts: [(i64, u64); 5] = [
        (start + 2 * SECS_PER_DAY + 17, 1),
        (start + 2 * SECS_PER_DAY + 17, 5),
        (start + 4 * SECS_PER_DAY + 86_000, 3),
        (start + 4 * SECS_PER_DAY + 86_000, 0),
        (start + 9 * SECS_PER_DAY, 2),
    ];
    let mut previous = record.last_invest_ts;
    for (now, days) in attempts {
        let _ = record.claim(now, days);
        assert!(record.last_invest_ts >= previous);
        assert_eq!((record.last_invest_ts - start) % SECS_PER_DAY, 0);
        previous = record.last_invest_ts;
    }
}

#[test]
fn failed_claim_leaves_the_record_unchanged() {
    let mut record = VipState { last_vip_ts: 600_000_000 };
    let copy = record;
    assert_eq!(record.claim(600_000_001, 1), Err(ErrorCode::NotEnoughElapsedDays));
    assert_eq!(record, copy);
    assert_eq!(record.claim(700_000_000, 0), Err(ErrorCode::ZeroDays));
    assert_eq!(record, copy);
}

#[test]
fn vip_track_has_identical_mechanics() {
    let now: i64 = 1_000_000_000;
    let mut vip = VipState::new();
    assert_eq!(vip.claim(now, 2), Err(ErrorCode::NotEnoughElapsedDays));
    assert_eq!(vip.claim(now, 1), Ok(()));
    assert_eq!(vip.last_vip_ts, now);
    let later = now + 2 * SECS_PER_DAY;
    assert_eq!(vip.claim(later, 2), Ok(()));
    assert_eq!(vip.last_vip_ts, later);
}

#[test]
fn first_claim_at_the_latest_possible_clock() {
    let now = i64::MAX;
    assert_eq!(compute_elapsed_days(0, now), 1);
    assert_eq!(evaluate_claim(0, now, 1), Ok(now));
}

#[test]
fn repeat_claim_fails_whenever_it_overshoots_the_remainder() {
    // Three day-units accrued: a claim of two leaves one, so the same
    // request of two must fail on the second submission.
    let w: i64 = 400_000_000;
    let now: i64 = w + 3 * SECS_PER_DAY;
    let mut record = UserState { last_invest_ts: w };
    assert_eq!(record.claim(now, 2), Ok(()));
    assert_eq!(record.claim(now, 2), Err(ErrorCode::NotEnoughElapsedDays));
    assert_eq!(record.claim(now, 1), Ok(()));
}
