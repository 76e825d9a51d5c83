//! Pool bookkeeping records.  These carry ownership and accounting data for
//! the shared pool; no instruction in this program reads or mutates them —
//! they exist for the surrounding deployment to describe its pool.

use vstd::prelude::*;

verus! {

/// A 32-byte ledger account address, held as plain bytes.
#[derive(Clone, Copy, Debug, PartialEq, Eq)]
pub struct AccountAddress {
    pub bytes: [u8; 32],
}

/// A pool's descriptor: who administers it, where its fees go, and its
/// aggregate accounting counters.
#[derive(Clone, Copy, Debug, PartialEq, Eq)]
pub struct Pool {
    pub owner: AccountAddress,
    pub treasury: AccountAddress,
    pub total_staked: u64,
    pub acc_rewards_per_share: u128,
}

/// One participant's position in a pool.
#[derive(Clone, Copy, Debug, PartialEq, Eq)]
pub struct UserPosition {
    pub pool: AccountAddress,
    pub owner: AccountAddress,
    pub amount: u64,
    pub reward_debt: u128,
}

} // verus!
