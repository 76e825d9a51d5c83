use dlan_stake::authority::{derive_signer_seeds, seeds_authorize, AuthorityRole};
use dlan_stake::state::{AccountAddress, Pool, UserPosition};

#[test]
fn mint_authority_seed_is_its_label_plus_bump() {
    let seeds = derive_signer_seeds(AuthorityRole::MintAuthority, 254);
    assert_eq!(seeds.label, b"mint-auth".to_vec());
    assert_eq!(seeds.bump, 254);
}

#[test]
fn vault_authority_seed_is_its_label_plus_bump() {
    let seeds = derive_signer_seeds(AuthorityRole::VaultAuthority, 7);
    assert_eq!(seeds.label, b"vault-auth".to_vec());
    assert_eq!(seeds.bump, 7);
}

#[test]
fn matching_seed_authorizes() {
    let seeds = derive_signer_seeds(AuthorityRole::VaultAuthority, 200);
    assert!(seeds_authorize(&seeds, AuthorityRole::VaultAuthority, 200));
}

#[test]
fn wrong_bump_fails_to_authorize() {
    let seeds = derive_signer_seeds(AuthorityRole::VaultAuthority, 200);
    assert!(!seeds_authorize(&seeds, AuthorityRole::VaultAuthority, 199));
}

#[test]
fn one_role_cannot_authorize_as_the_other() {
    let seeds = derive_signer_seeds(AuthorityRole::MintAuthority, 200);
    assert!(!seeds_authorize(&seeds, AuthorityRole::VaultAuthority, 200));
}

#[test]
fn pool_records_carry_their_fields() {
    let owner = AccountAddress { bytes: [1u8; 32] };
    let treasury = AccountAddress { bytes: [2u8; 32] };
    let pool = Pool { owner, treasury, total_staked: 10_000, acc_rewards_per_share: 5 };
    let position = UserPosition { pool: owner, owner: treasury, amount: 400, reward_debt: 3 };
    assert_eq!(pool.total_staked, 10_000);
    assert_eq!(pool.acc_rewards_per_share, 5);
    assert_eq!(position.amount, 400);
    assert_eq!(position.reward_debt, 3);
    assert_eq!(pool.owner, position.pool);
}
