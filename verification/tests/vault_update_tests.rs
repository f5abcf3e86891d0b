use solana_program::pubkey::Pubkey;
use vault_core::address::Address;
use vault_core::config::Config;
use vault_core::delegation_state::DelegationState;
use vault_core::error::{ProgramError, VaultError};
use vault_core::vault::Vault;
use vault_core::vault_operator_delegation::VaultOperatorDelegation;
use vault_core::vault_update::{process_close_vault_update_state_tracker, process_crank_vault_update_state_tracker};
use vault_core::vault_update_state_tracker::VaultUpdateStateTracker;

fn new_key() -> Address {
    Address::new(Pubkey::new_unique().to_bytes())
}

fn config(epoch_length: u64) -> Config {
    let mut config = Config::new(new_key(), new_key(), 255);
    config.epoch_length = epoch_length;
    config
}

fn vault(additional_assets_need_unstaking: u64, operator_count: u64) -> Vault {
    let mut vault = Vault::new(new_key(), new_key(), new_key(), 0, new_key(), 0, 0, 0, 0, 0, 0).unwrap();
    vault.additional_assets_need_unstaking = additional_assets_need_unstaking;
    vault.operator_count = operator_count;
    vault
}

fn delegation(vault: Address, index: u64, state: DelegationState) -> VaultOperatorDelegation {
    let mut d = VaultOperatorDelegation::new(vault, new_key(), index, 0);
    d.delegation_state = state;
    d
}

fn code(e: VaultError) -> ProgramError {
    ProgramError::Custom(e.code())
}

#[test]
fn test_crank_cools_down_what_withdrawals_need() {
    let config = config(100);
    let mut v = vault(30, 1);
    let key = new_key();
    let mut d = delegation(key, 0, DelegationState::new(100, 10, 5));
    let mut t = VaultUpdateStateTracker::new(key, 1, 0, 0);

    process_crank_vault_update_state_tracker(&config, &mut v, &mut d, &mut t, 150).unwrap();

    // 30 of the stake is cooled down and, one epoch later, cooling down with the 10 enqueued
    assert_eq!(d.delegation_state, DelegationState::new(70, 0, 40));
    assert_eq!(d.last_update_slot, 150);
    assert_eq!(v.additional_assets_need_unstaking, 0);
    assert_eq!(t.last_updated_index(), 0);
    assert_eq!(t.delegation_state, DelegationState::new(70, 0, 40));
}

#[test]
fn test_crank_after_two_epochs_releases_everything() {
    let config = config(100);
    let mut v = vault(0, 1);
    let key = new_key();
    let mut d = delegation(key, 0, DelegationState::new(100, 10, 5));
    let mut t = VaultUpdateStateTracker::new(key, 2, 0, 0);

    process_crank_vault_update_state_tracker(&config, &mut v, &mut d, &mut t, 250).unwrap();
    assert_eq!(d.delegation_state, DelegationState::new(100, 0, 0));
    assert_eq!(t.delegation_state, DelegationState::new(100, 0, 0));
}

#[test]
fn test_crank_skips_cooldown_of_partially_updated_operator() {
    let config = config(100);
    let mut v = vault(30, 1);
    let key = new_key();
    let mut d = delegation(key, 0, DelegationState::new(100, 0, 0));
    // the operator was updated in epoch 1, after the vault's last full update in epoch 0
    d.last_update_slot = 120;
    let mut t = VaultUpdateStateTracker::new(key, 2, 0, 0);

    process_crank_vault_update_state_tracker(&config, &mut v, &mut d, &mut t, 250).unwrap();
    assert_eq!(d.delegation_state, DelegationState::new(100, 0, 0));
    assert_eq!(v.additional_assets_need_unstaking, 30);
}

#[test]
fn test_crank_errors_leave_accounts_unchanged() {
    let key = new_key();
    let d0 = delegation(key, 0, DelegationState::new(100, 0, 0));
    let t0 = VaultUpdateStateTracker::new(key, 1, 0, 0);

    // zero epoch length
    let (mut v, mut d, mut t) = (vault(0, 1), d0, t0);
    let r = process_crank_vault_update_state_tracker(&config(0), &mut v, &mut d, &mut t, 150);
    assert_eq!(r, Err(code(VaultError::DivisionByZero)));

    // paused vault
    let mut v = vault(0, 1);
    v.is_paused = true;
    let r = process_crank_vault_update_state_tracker(&config(100), &mut v, &mut d, &mut t, 150);
    assert_eq!(r, Err(code(VaultError::VaultIsPaused)));

    // operator already updated in this epoch
    let mut v = vault(0, 1);
    let mut d_updated = d0;
    d_updated.last_update_slot = 140;
    let r = process_crank_vault_update_state_tracker(&config(100), &mut v, &mut d_updated, &mut t, 150);
    assert_eq!(r, Err(code(VaultError::VaultOperatorDelegationIsUpdated)));

    // wrong index
    // epoch 1 with two operators starts at index 1
    let mut d_wrong = delegation(key, 0, DelegationState::new(100, 0, 0));
    let mut v = vault(0, 2);
    let r = process_crank_vault_update_state_tracker(&config(100), &mut v, &mut d_wrong, &mut t, 150);
    assert_eq!(r, Err(code(VaultError::VaultUpdateIncorrectIndex)));

    // unknown allocation method: the tracker's index is not recorded
    let mut t_bad = VaultUpdateStateTracker::new(key, 1, 0, 7);
    let mut v = vault(0, 1);
    let mut d = d0;
    let r = process_crank_vault_update_state_tracker(&config(100), &mut v, &mut d, &mut t_bad, 150);
    assert_eq!(r, Err(code(VaultError::InvalidWithdrawalAllocationMethod)));
    assert_eq!(t_bad.last_updated_index(), u64::MAX);
    assert_eq!(d, d0);
}

#[test]
fn test_close_moves_withdrawals_one_stage() {
    let config = config(100);
    let mut v = vault(0, 1);
    v.vrt_enqueued_for_cooldown_amount = 7;
    v.vrt_cooling_down_amount = 5;
    v.vrt_ready_to_claim_amount = 3;
    let key = new_key();
    let mut t = VaultUpdateStateTracker::new(key, 1, 0, 0);
    let mut d = delegation(key, 0, DelegationState::new(100, 10, 5));
    process_crank_vault_update_state_tracker(&config, &mut v, &mut d, &mut t, 150).unwrap();

    process_close_vault_update_state_tracker(&config, &mut v, &t, 1, 160).unwrap();
    assert_eq!(v.delegation_state, DelegationState::new(100, 0, 10));
    assert_eq!(v.last_full_state_update_slot, 160);
    assert_eq!(v.vrt_enqueued_for_cooldown_amount, 0);
    assert_eq!(v.vrt_cooling_down_amount, 7);
    assert_eq!(v.vrt_ready_to_claim_amount, 8);
}

#[test]
fn test_close_before_all_operators_updated_fails() {
    let config = config(100);
    let mut v = vault(0, 2);
    let before = v;
    let t = VaultUpdateStateTracker::new(new_key(), 1, 0, 0);
    assert_eq!(
        process_close_vault_update_state_tracker(&config, &mut v, &t, 1, 150),
        Err(code(VaultError::VaultUpdateStateNotFinishedUpdating))
    );
    assert_eq!(v, before);
}

#[test]
fn test_close_of_old_epoch_changes_nothing() {
    let config = config(100);
    let mut v = vault(0, 2);
    let before = v;
    let t = VaultUpdateStateTracker::new(new_key(), 0, 0, 0);
    assert_eq!(process_close_vault_update_state_tracker(&config, &mut v, &t, 0, 150), Ok(()));
    assert_eq!(v, before);
}

#[test]
fn test_close_overflow_of_ready_to_claim() {
    let config = config(100);
    let mut v = vault(0, 0);
    v.vrt_ready_to_claim_amount = u64::MAX;
    v.vrt_cooling_down_amount = 1;
    let t = VaultUpdateStateTracker::new(new_key(), 1, 0, 0);
    assert_eq!(
        process_close_vault_update_state_tracker(&config, &mut v, &t, 1, 150),
        Err(code(VaultError::VaultOverflow))
    );
}
