//! Derived signing authorities: key-less addresses the program alone can
//! authorize as.  Each authority is identified by a fixed textual label plus
//! a host-chosen disambiguation byte (the "bump"); presenting exactly that
//! label and bump as a seed is the program's authorization proof.  The host
//! precomputes the expected address from the same seed, so a wrong bump
//! simply fails to reproduce it and the instruction never runs.

use vstd::prelude::*;

verus! {

/// The two authorities the program derives: one may mint the companion
/// token, the other owns the shared pool and signs outgoing transfers.
#[derive(Clone, Copy, Debug, PartialEq, Eq, Structural)]
pub enum AuthorityRole {
    MintAuthority,
    VaultAuthority,
}

/// The fixed label of each authority, as bytes: `mint-auth` for the mint
/// authority and `vault-auth` for the vault authority.
pub open spec fn label_bytes(role: AuthorityRole) -> Seq<u8> {
    match role {
        AuthorityRole::MintAuthority => seq![
            109u8,
            105u8,
            110u8,
            116u8,
            45u8,
            97u8,
            117u8,
            116u8,
            104u8,
        ],
        AuthorityRole::VaultAuthority => seq![
            118u8,
            97u8,
            117u8,
            108u8,
            116u8,
            45u8,
            97u8,
            117u8,
            116u8,
            104u8,
        ],
    }
}

/// The seed a derived authority presents to the host: its fixed label and
/// the host-supplied bump byte.
#[derive(Debug)]
pub struct SignerSeeds {
    pub label: Vec<u8>,
    pub bump: u8,
}

impl SignerSeeds {
    /// The seed that stands for `role` under disambiguation byte `bump`.
    pub open spec fn is_for(self, role: AuthorityRole, bump: u8) -> bool {
        self.label@ == label_bytes(role) && self.bump == bump
    }
}

/// Build the seed for a role: the role's fixed label, byte for byte, plus
/// the bump the host supplied.
pub fn derive_signer_seeds(role: AuthorityRole, bump: u8) -> (seeds: SignerSeeds)
    ensures
        seeds.is_for(role, bump),
{
    let label: Vec<u8> = match role {
        AuthorityRole::MintAuthority => vec![109u8, 105u8, 110u8, 116u8, 45u8, 97u8, 117u8, 116u8, 104u8],
        AuthorityRole::VaultAuthority => vec![
            118u8,
            97u8,
            117u8,
            108u8,
            116u8,
            45u8,
            97u8,
            117u8,
            116u8,
            104u8,
        ],
    };
    proof {
        assert(label@ =~= label_bytes(role));
    }
    SignerSeeds { label, bump }
}

/// The host's precondition check, modelled: a presented seed authorizes as
/// `role` exactly when it reproduces the expected label and bump.
pub fn seeds_authorize(presented: &SignerSeeds, role: AuthorityRole, bump: u8) -> (ok: bool)
    ensures
        ok == presented.is_for(role, bump),
{
    if presented.bump != bump {
        return false;
    }
    let expected = derive_signer_seeds(role, bump);
    let n: usize = presented.label.len();
    if n != expected.label.len() {
        return false;
    }
    let mut i: usize = 0;
    while i < n
        invariant
            n == presented.label@.len(),
            n == expected.label@.len(),
            expected.label@ == label_bytes(role),
            i <= n,
            forall|j: int| 0 <= j < i ==> presented.label@[j] == expected.label@[j],
        decreases n - i,
    {
        if presented.label[i] != expected.label[i] {
            return false;
        }
        i = i + 1;
    }
    proof {
        assert(presented.label@ =~= label_bytes(role));
    }
    true
}

/// The two authorities are distinct: their labels differ, so no seed can
/// authorize as both.
pub proof fn lemma_roles_have_distinct_labels()
    ensures
        label_bytes(AuthorityRole::MintAuthority) != label_bytes(AuthorityRole::VaultAuthority),
{
    assert(label_bytes(AuthorityRole::MintAuthority).len() == 9);
    assert(label_bytes(AuthorityRole::VaultAuthority).len() == 10);
}

} // verus!
