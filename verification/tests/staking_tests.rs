use nft_staking::delegation::{delegate_nft, undelegate_nft};
use nft_staking::errors::StakingError;
use nft_staking::rewards::{compute_reward, send_rewards};
use nft_staking::setup::{create_nft, initialize_mint, CreatorInfo};
use nft_staking::staking::{close_record, stake_nft, unstake_nft};
use nft_staking::state::{
    HolderAccount, MasterEdition, NFTRecord, RewardAccount, RewardMint, StakePosition,
};

fn fresh_position() -> StakePosition {
    StakePosition {
        holder_account: HolderAccount { balance: 1, frozen: false, delegated: false },
        edition: MasterEdition { max_supply: Some(0) },
        record: None,
    }
}

fn delegated_position() -> StakePosition {
    let mut p = fresh_position();
    assert_eq!(delegate_nft(&mut p, true), Ok(()));
    p
}

#[test]
fn create_nft_yields_single_edition_holder() {
    let (descriptor, position) = create_nft(
        "Proof Of Stake".to_string(),
        "POS".to_string(),
        "https://example.org/pos.json".to_string(),
    );
    assert_eq!(descriptor.name, "Proof Of Stake");
    assert_eq!(descriptor.symbol, "POS");
    assert_eq!(descriptor.uri, "https://example.org/pos.json");
    assert_eq!(descriptor.seller_fee_basis_points, 0);
    assert_eq!(descriptor.creator, Some(CreatorInfo { verified: true, share: 100 }));
    assert!(!descriptor.is_mutable);
    assert_eq!(position.holder_account.balance, 1);
    assert!(!position.holder_account.frozen);
    assert!(!position.holder_account.delegated);
    assert_eq!(position.edition.max_supply, Some(0));
    assert_eq!(position.record, None);
}

#[test]
fn initialize_mint_starts_empty() {
    let (mint, descriptor) = initialize_mint();
    assert_eq!(mint.supply, 0);
    assert_eq!(descriptor.name, "Reward Token");
    assert_eq!(descriptor.symbol, "RWT");
    assert_eq!(descriptor.uri, "");
    assert_eq!(descriptor.creator, None);
    assert!(descriptor.is_mutable);
}

#[test]
fn stake_succeeds_once_then_record_already_exists() {
    let mut p = delegated_position();
    assert_eq!(stake_nft(&mut p, 1000, true), Ok(()));
    assert_eq!(p.record, Some(NFTRecord { staked_at: 1000 }));
    assert!(p.holder_account.frozen);
    let frozen_snapshot = p;
    assert_eq!(stake_nft(&mut p, 1500, true), Err(StakingError::RecordAlreadyExists));
    assert_eq!(p, frozen_snapshot);
}

#[test]
fn stake_rejects_empty_account() {
    let mut p = delegated_position();
    p.holder_account.balance = 0;
    assert_eq!(stake_nft(&mut p, 1000, true), Err(StakingError::TokenAccountEmpty));
    assert_eq!(p.record, None);
    assert!(!p.holder_account.frozen);
}

#[test]
fn stake_rejects_multi_edition_asset() {
    let mut p = delegated_position();
    p.edition.max_supply = Some(3);
    assert_eq!(stake_nft(&mut p, 1000, true), Err(StakingError::TokenNotNFT));
    let mut q = delegated_position();
    q.edition.max_supply = None;
    assert_eq!(stake_nft(&mut q, 1000, true), Err(StakingError::TokenNotNFT));
}

#[test]
fn stake_rejects_missing_signature_and_missing_delegation() {
    let mut p = delegated_position();
    assert_eq!(stake_nft(&mut p, 1000, false), Err(StakingError::UnauthorizedSigner));
    let mut q = fresh_position();
    assert_eq!(stake_nft(&mut q, 1000, true), Err(StakingError::UnauthorizedSigner));
    assert_eq!(q.record, None);
}

#[test]
fn would_be_asset_with_balance_two_fails_token_not_nft() {
    // A would-be asset: more than one copy issuable, and the holder holds two.
    let mut p = StakePosition {
        holder_account: HolderAccount { balance: 2, frozen: false, delegated: true },
        edition: MasterEdition { max_supply: Some(10) },
        record: None,
    };
    assert_eq!(stake_nft(&mut p, 1000, true), Err(StakingError::TokenNotNFT));
    assert_eq!(p.record, None);
    assert!(!p.holder_account.frozen);
}

#[test]
fn round_trip_restores_unfrozen_balance_unchanged() {
    let mut p = delegated_position();
    assert_eq!(stake_nft(&mut p, 1000, true), Ok(()));
    assert!(p.holder_account.frozen);
    assert_eq!(unstake_nft(&mut p, true), Ok(()));
    assert!(!p.holder_account.frozen);
    assert_eq!(p.holder_account.balance, 1);
    // The record survives the exit until it is explicitly closed.
    assert_eq!(p.record, Some(NFTRecord { staked_at: 1000 }));
    assert_eq!(close_record(&mut p, true), Ok(()));
    assert_eq!(p.record, None);
}

#[test]
fn unstake_without_record_fails_record_not_found() {
    let mut p = delegated_position();
    assert_eq!(unstake_nft(&mut p, true), Err(StakingError::RecordNotFound));
    assert_eq!(close_record(&mut p, true), Err(StakingError::RecordNotFound));
}

#[test]
fn close_is_allowed_even_while_frozen() {
    let mut p = delegated_position();
    assert_eq!(stake_nft(&mut p, 1000, true), Ok(()));
    // No "must be unstaked" gate at this layer: close succeeds while frozen.
    assert_eq!(close_record(&mut p, true), Ok(()));
    assert_eq!(p.record, None);
    assert!(p.holder_account.frozen);
}

#[test]
fn delegation_requires_exactly_one_unit() {
    let mut p = fresh_position();
    p.holder_account.balance = 0;
    assert_eq!(delegate_nft(&mut p, true), Err(StakingError::TokenAccountEmpty));
    assert!(!p.holder_account.delegated);
    p.holder_account.balance = 1;
    assert_eq!(delegate_nft(&mut p, false), Err(StakingError::UnauthorizedSigner));
    assert_eq!(delegate_nft(&mut p, true), Ok(()));
    assert!(p.holder_account.delegated);
    // Re-granting before revocation is accepted.
    assert_eq!(delegate_nft(&mut p, true), Ok(()));
    assert!(p.holder_account.delegated);
}

#[test]
fn revoke_without_delegation_is_a_noop_success() {
    let mut p = fresh_position();
    let before = p;
    assert_eq!(undelegate_nft(&mut p, true), Ok(()));
    assert_eq!(p, before);
    // And revocation after a grant removes it.
    assert_eq!(delegate_nft(&mut p, true), Ok(()));
    assert_eq!(undelegate_nft(&mut p, true), Ok(()));
    assert!(!p.holder_account.delegated);
}

#[test]
fn reward_is_exactly_elapsed_time() {
    assert_eq!(compute_reward(1000, 1100), Ok(100));
    assert_eq!(compute_reward(1000, 1000), Ok(0));
    assert_eq!(compute_reward(0, i64::MAX), Ok(i64::MAX as u64));
}

#[test]
fn negative_or_overflowing_duration_fails_closed() {
    assert_eq!(compute_reward(1100, 1000), Err(StakingError::ArithmeticFault));
    assert_eq!(compute_reward(i64::MIN, 1), Err(StakingError::ArithmeticFault));
}

#[test]
fn repeated_claims_accrue_from_the_original_stake_time() {
    let mut p = delegated_position();
    assert_eq!(stake_nft(&mut p, 1000, true), Ok(()));
    let mut mint = RewardMint { supply: 0 };
    let mut acct = RewardAccount { balance: 0 };
    assert_eq!(send_rewards(&p.record, &mut mint, &mut acct, 1100, true), Ok(100));
    assert_eq!(mint.supply, 100);
    assert_eq!(acct.balance, 100);
    // staked_at is never advanced: the second claim mints another 200, not 100.
    assert_eq!(send_rewards(&p.record, &mut mint, &mut acct, 1200, true), Ok(200));
    assert_eq!(mint.supply, 300);
    assert_eq!(acct.balance, 300);
    assert_eq!(p.record, Some(NFTRecord { staked_at: 1000 }));
}

#[test]
fn rewards_fail_without_record_or_signature_or_headroom() {
    let p = delegated_position();
    let mut mint = RewardMint { supply: 0 };
    let mut acct = RewardAccount { balance: 0 };
    assert_eq!(
        send_rewards(&p.record, &mut mint, &mut acct, 1100, true),
        Err(StakingError::RecordNotFound)
    );
    let mut staked = p;
    assert_eq!(stake_nft(&mut staked, 1000, true), Ok(()));
    assert_eq!(
        send_rewards(&staked.record, &mut mint, &mut acct, 1100, false),
        Err(StakingError::UnauthorizedSigner)
    );
    // Minting must not wrap the supply or the balance.
    let mut full_mint = RewardMint { supply: u64::MAX };
    assert_eq!(
        send_rewards(&staked.record, &mut full_mint, &mut acct, 1100, true),
        Err(StakingError::ArithmeticFault)
    );
    assert_eq!(full_mint.supply, u64::MAX);
    assert_eq!(acct.balance, 0);
    let mut full_acct = RewardAccount { balance: u64::MAX };
    assert_eq!(
        send_rewards(&staked.record, &mut mint, &mut full_acct, 1100, true),
        Err(StakingError::ArithmeticFault)
    );
    assert_eq!(mint.supply, 0);
    assert_eq!(full_acct.balance, u64::MAX);
}

#[test]
fn derived_authorities_are_deterministic_and_distinct() {
    let program_id = vec![7u8; 32];
    let a1 = nft_staking::authority::derive_staking_authority(&program_id).unwrap();
    let a2 = nft_staking::authority::derive_staking_authority(&program_id).unwrap();
    assert_eq!(a1.address, a2.address);
    assert_eq!(a1.address.len(), 32);
    let m = nft_staking::authority::derive_mint_authority(&program_id).unwrap();
    assert_ne!(m.address, a1.address);
    assert_ne!(a1.address, program_id);
    assert_ne!(m.address, program_id);
}
