//! Claim ledger records: one persistent watermark per (participant, track)
//! pair.  Two independent tracks exist — standard and priority — with
//! identical mechanics and disjoint storage.

use vstd::prelude::*;

use crate::gate::ErrorCode;
use crate::gate::advanced_watermark;
use crate::gate::evaluate_claim;
use crate::gate::gate_accepts;

verus! {

/// Standard-track record: the last point up to which the participant's
/// accrual has been consumed, in seconds since epoch; 0 means "never
/// initialized".
#[derive(Clone, Copy, Debug, PartialEq, Eq, Structural)]
pub struct UserState {
    pub last_invest_ts: i64,
}

/// Priority-track record, same mechanics as [`UserState`] but stored apart.
#[derive(Clone, Copy, Debug, PartialEq, Eq, Structural)]
pub struct VipState {
    pub last_vip_ts: i64,
}

impl UserState {
    /// A record's watermark is never negative: it is either the 0 sentinel or
    /// a timestamp a successful claim set.
    pub open spec fn wf(self) -> bool {
        self.last_invest_ts >= 0
    }

    /// A record leaves the uninitialized state on its first successful claim
    /// and never returns to it.
    pub open spec fn is_active(self) -> bool {
        self.last_invest_ts > 0
    }

    /// A freshly created record, zero-initialized.
    pub fn new() -> (s: Self)
        ensures
            s.last_invest_ts == 0,
            s.wf(),
            !s.is_active(),
    {
        UserState { last_invest_ts: 0 }
    }

    /// Consume `claim_days` day-units of accrued credit, advancing the
    /// watermark, or reject the request and leave the record untouched.
    pub fn claim(&mut self, now: i64, claim_days: u64) -> (r: Result<(), ErrorCode>)
        requires
            old(self).wf(),
            now > 0,
        ensures
            final(self).wf(),
            r is Ok <==> gate_accepts(old(self).last_invest_ts as int, now as int, claim_days as int),
            r is Ok ==> final(self).last_invest_ts == advanced_watermark(
                old(self).last_invest_ts as int,
                now as int,
                claim_days as int,
            ),
            r is Ok ==> old(self).last_invest_ts < final(self).last_invest_ts <= now,
            r is Ok ==> final(self).is_active(),
            r is Err ==> *final(self) == *old(self),
            claim_days == 0 ==> r == Err::<(), ErrorCode>(ErrorCode::ZeroDays),
            r is Err && claim_days > 0 ==> r == Err::<(), ErrorCode>(ErrorCode::NotEnoughElapsedDays),
            final(self).last_invest_ts >= old(self).last_invest_ts,
    {
        match evaluate_claim(self.last_invest_ts, now, claim_days) {
            Ok(new_watermark) => {
                self.last_invest_ts = new_watermark;
                Ok(())
            },
            Err(code) => Err(code),
        }
    }
}

impl VipState {
    /// A record's watermark is never negative: it is either the 0 sentinel or
    /// a timestamp a successful claim set.
    pub open spec fn wf(self) -> bool {
        self.last_vip_ts >= 0
    }

    /// A record leaves the uninitialized state on its first successful claim
    /// and never returns to it.
    pub open spec fn is_active(self) -> bool {
        self.last_vip_ts > 0
    }

    /// A freshly created record, zero-initialized.
    pub fn new() -> (s: Self)
        ensures
            s.last_vip_ts == 0,
            s.wf(),
            !s.is_active(),
    {
        VipState { last_vip_ts: 0 }
    }

    /// Consume `claim_days` day-units of accrued credit, advancing the
    /// watermark, or reject the request and leave the record untouched.
    pub fn claim(&mut self, now: i64, claim_days: u64) -> (r: Result<(), ErrorCode>)
        requires
            old(self).wf(),
            now > 0,
        ensures
            final(self).wf(),
            r is Ok <==> gate_accepts(old(self).last_vip_ts as int, now as int, claim_days as int),
            r is Ok ==> final(self).last_vip_ts == advanced_watermark(
                old(self).last_vip_ts as int,
                now as int,
                claim_days as int,
            ),
            r is Ok ==> old(self).last_vip_ts < final(self).last_vip_ts <= now,
            r is Ok ==> final(self).is_active(),
            r is Err ==> *final(self) == *old(self),
            claim_days == 0 ==> r == Err::<(), ErrorCode>(ErrorCode::ZeroDays),
            r is Err && claim_days > 0 ==> r == Err::<(), ErrorCode>(ErrorCode::NotEnoughElapsedDays),
            final(self).last_vip_ts >= old(self).last_vip_ts,
    {
        match evaluate_claim(self.last_vip_ts, now, claim_days) {
            Ok(new_watermark) => {
                self.last_vip_ts = new_watermark;
                Ok(())
            },
            Err(code) => Err(code),
        }
    }
}

} // verus!
