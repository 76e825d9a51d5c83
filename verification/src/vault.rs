//! The shared custodial pool and the two money-moving operations: the split
//! disbursement that pays a granted claim out of the pool, and the
//! deposit-and-mint exchange.  Balances are plain integer token units; every
//! operation either applies all of its transfers or none of them, mirroring
//! the atomicity the execution host guarantees for one instruction.

use vstd::prelude::*;

use crate::gate::ErrorCode;

verus! {

/// Why a whole instruction was rejected.
#[derive(Clone, Copy, Debug, PartialEq, Eq, Structural)]
pub enum TxError {
    /// The program's own gate rejected the request.
    Program(ErrorCode),
    /// A transfer or deposit leg asked for more than its source holds.
    InsufficientBalance,
}

/// The token balances a split disbursement touches: the shared pool, the
/// participant's token account, and the fee recipient's token account.
#[derive(Clone, Copy, Debug, PartialEq, Eq, Structural)]
pub struct SplitAccounts {
    /// The shared custodial pool all releases are drawn from.
    pub vault_token: u64,
    /// The participant's token account.
    pub user_token: u64,
    /// The fee recipient's token account.
    pub fee_token: u64,
}

/// The balances a deposit-and-mint touches: the depositor's native-currency
/// balance, the administrative account it is forwarded to, and the
/// participant's companion-token account the mint credits.
#[derive(Clone, Copy, Debug, PartialEq, Eq, Structural)]
pub struct StakeAccounts {
    /// Native currency held by the depositor.
    pub authority_lamports: u64,
    /// Native currency held by the administrative account.
    pub admin_lamports: u64,
    /// Companion-token balance of the depositor's token account.
    pub user_token: u64,
}

impl SplitAccounts {
    /// Sum of all balances in view, as a mathematical integer.
    pub open spec fn total(self) -> int {
        self.vault_token + self.user_token + self.fee_token
    }
}

/// Whether the pool can cover both legs of a split.
pub open spec fn split_covered(accounts: SplitAccounts, user_amount: u64, fee_amount: u64) -> bool {
    user_amount + fee_amount <= accounts.vault_token
}

/// The balances after a granted split: both legs leave the pool, each leg
/// lands on its recipient.
pub open spec fn split_applied(
    accounts: SplitAccounts,
    user_amount: u64,
    fee_amount: u64,
) -> SplitAccounts {
    SplitAccounts {
        vault_token: (accounts.vault_token - user_amount - fee_amount) as u64,
        user_token: (accounts.user_token + user_amount) as u64,
        fee_token: (accounts.fee_token + fee_amount) as u64,
    }
}

/// Pay one release out of the pool, split between the participant and the fee
/// recipient.  A zero leg is skipped entirely — a no-op, not an error.  The
/// two legs succeed or fail together: on failure the balances are untouched.
pub fn split_disbursement(
    accounts: &mut SplitAccounts,
    user_amount: u64,
    fee_amount: u64,
) -> (r: Result<(), TxError>)
    requires
        old(accounts).user_token + user_amount <= u64::MAX,
        old(accounts).fee_token + fee_amount <= u64::MAX,
    ensures
        r is Ok <==> split_covered(*old(accounts), user_amount, fee_amount),
        r is Ok ==> *final(accounts) == split_applied(*old(accounts), user_amount, fee_amount),
        r is Err ==> *final(accounts) == *old(accounts),
        r is Err ==> r == Err::<(), TxError>(TxError::InsufficientBalance),
        final(accounts).total() == old(accounts).total(),
{
    let mut vault: u64 = accounts.vault_token;
    let mut user: u64 = accounts.user_token;
    let mut fee: u64 = accounts.fee_token;
    if user_amount > 0 {
        if vault < user_amount {
            return Err(TxError::InsufficientBalance);
        }
        vault = vault - user_amount;
        user = user + user_amount;
    }
    if fee_amount > 0 {
        if vault < fee_amount {
            return Err(TxError::InsufficientBalance);
        }
        vault = vault - fee_amount;
        fee = fee + fee_amount;
    }
    accounts.vault_token = vault;
    accounts.user_token = user;
    accounts.fee_token = fee;
    Ok(())
}

/// Whether the depositor can cover the native-currency leg.
pub open spec fn deposit_covered(accounts: StakeAccounts, sol_lamports: u64) -> bool {
    sol_lamports <= accounts.authority_lamports
}

/// The balances after a deposit-and-mint: the native currency moves to the
/// administrative account and the minted tokens land on the participant.
pub open spec fn deposit_applied(
    accounts: StakeAccounts,
    sol_lamports: u64,
    mint_amount: u64,
) -> StakeAccounts {
    StakeAccounts {
        authority_lamports: (accounts.authority_lamports - sol_lamports) as u64,
        admin_lamports: (accounts.admin_lamports + sol_lamports) as u64,
        user_token: (accounts.user_token + mint_amount) as u64,
    }
}

/// Forward a native-currency deposit to the administrative account, then mint
/// the caller-declared token amount to the participant.  If the currency
/// transfer cannot be covered, no minting occurs and nothing changes.
pub fn deposit_and_mint(
    accounts: &mut StakeAccounts,
    sol_lamports: u64,
    mint_amount: u64,
) -> (r: Result<(), TxError>)
    requires
        old(accounts).admin_lamports + sol_lamports <= u64::MAX,
        old(accounts).user_token + mint_amount <= u64::MAX,
    ensures
        r is Ok <==> deposit_covered(*old(accounts), sol_lamports),
        r is Ok ==> *final(accounts) == deposit_applied(*old(accounts), sol_lamports, mint_amount),
        r is Err ==> *final(accounts) == *old(accounts),
        r is Err ==> r == Err::<(), TxError>(TxError::InsufficientBalance),
{
    if accounts.authority_lamports < sol_lamports {
        return Err(TxError::InsufficientBalance);
    }
    accounts.authority_lamports = accounts.authority_lamports - sol_lamports;
    accounts.admin_lamports = accounts.admin_lamports + sol_lamports;
    accounts.user_token = accounts.user_token + mint_amount;
    Ok(())
}

} // verus!
