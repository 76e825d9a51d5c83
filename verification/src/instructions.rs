//! The program's entry points.  Each one is a single transaction: it either
//! applies every effect it describes — watermark advance and both transfer
//! legs — or rejects the request and changes nothing at all.

use vstd::prelude::*;

use crate::gate::ErrorCode;
use crate::gate::advanced_watermark;
use crate::gate::evaluate_claim;
use crate::gate::gate_accepts;
use crate::record::UserState;
use crate::record::VipState;
use crate::vault::SplitAccounts;
use crate::vault::StakeAccounts;
use crate::vault::TxError;
use crate::vault::deposit_and_mint;
use crate::vault::deposit_applied;
use crate::vault::deposit_covered;
use crate::vault::split_applied;
use crate::vault::split_covered;
use crate::vault::split_disbursement;

verus! {

/// Legacy deposit: the native amount and the minted amount are forced equal.
pub fn stake_and_mint(accounts: &mut StakeAccounts, amount: u64) -> (r: Result<(), TxError>)
    requires
        old(accounts).admin_lamports + amount <= u64::MAX,
        old(accounts).user_token + amount <= u64::MAX,
    ensures
        r is Ok <==> deposit_covered(*old(accounts), amount),
        r is Ok ==> *final(accounts) == deposit_applied(*old(accounts), amount, amount),
        r is Err ==> *final(accounts) == *old(accounts),
        r is Err ==> r == Err::<(), TxError>(TxError::InsufficientBalance),
{
    stake_and_mint_priced(accounts, amount, amount)
}

/// Deposit `sol_lamports` of native currency, forwarded to the
/// administrative account, and mint exactly `mint_amount` companion tokens
/// to the participant.  The exchange rate is the caller's responsibility;
/// no relation between the two amounts is enforced here.
pub fn stake_and_mint_priced(
    accounts: &mut StakeAccounts,
    sol_lamports: u64,
    mint_amount: u64,
) -> (r: Result<(), TxError>)
    requires
        old(accounts).admin_lamports + sol_lamports <= u64::MAX,
        old(accounts).user_token + mint_amount <= u64::MAX,
    ensures
        r is Ok <==> deposit_covered(*old(accounts), sol_lamports),
        r is Ok ==> *final(accounts) == deposit_applied(*old(accounts), sol_lamports, mint_amount),
        r is Err ==> *final(accounts) == *old(accounts),
        r is Err ==> r == Err::<(), TxError>(TxError::InsufficientBalance),
{
    deposit_and_mint(accounts, sol_lamports, mint_amount)
}

/// Legacy untimed release: the same split-transfer the timed paths perform,
/// with no rate limiting and no record touched.
pub fn claim_usdt_split(
    accounts: &mut SplitAccounts,
    user_amount: u64,
    fee_amount: u64,
) -> (r: Result<(), TxError>)
    requires
        old(accounts).user_token + user_amount <= u64::MAX,
        old(accounts).fee_token + fee_amount <= u64::MAX,
    ensures
        r is Ok <==> split_covered(*old(accounts), user_amount, fee_amount),
        r is Ok ==> *final(accounts) == split_applied(*old(accounts), user_amount, fee_amount),
        r is Err ==> *final(accounts) == *old(accounts),
        r is Err ==> r == Err::<(), TxError>(TxError::InsufficientBalance),
{
    split_disbursement(accounts, user_amount, fee_amount)
}

/// Timed release on the standard track: `claimed_days` day-units of accrued
/// credit are consumed and the split disbursement is paid out, all in one
/// transaction.  On any rejection — zero request, not enough elapsed days,
/// or a pool that cannot cover both legs — the record and every balance are
/// left byte-for-byte unchanged.
pub fn invest_claim_split(
    user_state: &mut UserState,
    accounts: &mut SplitAccounts,
    now: i64,
    user_amount: u64,
    fee_amount: u64,
    claimed_days: u64,
) -> (r: Result<(), TxError>)
    requires
        old(user_state).wf(),
        now > 0,
        old(accounts).user_token + user_amount <= u64::MAX,
        old(accounts).fee_token + fee_amount <= u64::MAX,
    ensures
        final(user_state).wf(),
        r is Ok <==> gate_accepts(old(user_state).last_invest_ts as int, now as int, claimed_days as int)
            && split_covered(*old(accounts), user_amount, fee_amount),
        r is Ok ==> final(user_state).last_invest_ts == advanced_watermark(
            old(user_state).last_invest_ts as int,
            now as int,
            claimed_days as int,
        ),
        r is Ok ==> *final(accounts) == split_applied(*old(accounts), user_amount, fee_amount),
        r is Err ==> *final(user_state) == *old(user_state) && *final(accounts) == *old(accounts),
        claimed_days == 0 ==> r == Err::<(), TxError>(TxError::Program(ErrorCode::ZeroDays)),
        claimed_days > 0 && !gate_accepts(
            old(user_state).last_invest_ts as int,
            now as int,
            claimed_days as int,
        ) ==> r == Err::<(), TxError>(TxError::Program(ErrorCode::NotEnoughElapsedDays)),
        gate_accepts(old(user_state).last_invest_ts as int, now as int, claimed_days as int)
            && !split_covered(*old(accounts), user_amount, fee_amount) ==> r == Err::<
            (),
            TxError,
        >(TxError::InsufficientBalance),
        final(user_state).last_invest_ts >= old(user_state).last_invest_ts,
{
    let new_watermark: i64 = match evaluate_claim(user_state.last_invest_ts, now, claimed_days) {
        Ok(w) => w,
        Err(code) => {
            return Err(TxError::Program(code));
        },
    };
    match split_disbursement(accounts, user_amount, fee_amount) {
        Ok(()) => {
            user_state.last_invest_ts = new_watermark;
            Ok(())
        },
        Err(failure) => Err(failure),
    }
}

/// Timed release on the priority track: identical mechanics to
/// [`invest_claim_split`], against the priority record.
pub fn vip_claim_split_timed(
    vip_state: &mut VipState,
    accounts: &mut SplitAccounts,
    now: i64,
    user_amount: u64,
    fee_amount: u64,
    requested_days: u64,
) -> (r: Result<(), TxError>)
    requires
        old(vip_state).wf(),
        now > 0,
        old(accounts).user_token + user_amount <= u64::MAX,
        old(accounts).fee_token + fee_amount <= u64::MAX,
    ensures
        final(vip_state).wf(),
        r is Ok <==> gate_accepts(old(vip_state).last_vip_ts as int, now as int, requested_days as int)
            && split_covered(*old(accounts), user_amount, fee_amount),
        r is Ok ==> final(vip_state).last_vip_ts == advanced_watermark(
            old(vip_state).last_vip_ts as int,
            now as int,
            requested_days as int,
        ),
        r is Ok ==> *final(accounts) == split_applied(*old(accounts), user_amount, fee_amount),
        r is Err ==> *final(vip_state) == *old(vip_state) && *final(accounts) == *old(accounts),
        requested_days == 0 ==> r == Err::<(), TxError>(TxError::Program(ErrorCode::ZeroDays)),
        requested_days > 0 && !gate_accepts(
            old(vip_state).last_vip_ts as int,
            now as int,
            requested_days as int,
        ) ==> r == Err::<(), TxError>(TxError::Program(ErrorCode::NotEnoughElapsedDays)),
        gate_accepts(old(vip_state).last_vip_ts as int, now as int, requested_days as int)
            && !split_covered(*old(accounts), user_amount, fee_amount) ==> r == Err::<
            (),
            TxError,
        >(TxError::InsufficientBalance),
        final(vip_state).last_vip_ts >= old(vip_state).last_vip_ts,
{
    let new_watermark: i64 = match evaluate_claim(vip_state.last_vip_ts, now, requested_days) {
        Ok(w) => w,
        Err(code) => {
            return Err(TxError::Program(code));
        },
    };
    match split_disbursement(accounts, user_amount, fee_amount) {
        Ok(()) => {
            vip_state.last_vip_ts = new_watermark;
            Ok(())
        },
        Err(failure) => Err(failure),
    }
}

} // verus!
