use std::mem::size_of;

use solana_program::pubkey::Pubkey;
use vault_core::address::Address;
use vault_core::delegation_state::DELEGATION_STATE_LEN;
use vault_core::error::VaultError;
use vault_core::vault_update_state_tracker::{VaultUpdateStateTracker, VAULT_UPDATE_STATE_TRACKER_ACCOUNT_LEN};

fn new_key() -> Address {
    Address::new(Pubkey::new_unique().to_bytes())
}
#[test]
fn test_vault_update_state_tracker_sno_padding() {
    let vault_update_state_tracker_size = VAULT_UPDATE_STATE_TRACKER_ACCOUNT_LEN - 8;
    let sum_of_fields = size_of::<[u8; 32]>() + // vault
        size_of::<u64>() + // ncn_epoch
        size_of::<u64>() + // last_updated_index
        size_of::<u64>() + // additional_assets_need_unstaking
        DELEGATION_STATE_LEN + // delegation_state
        size_of::<u8>() + // withdrawal_allocation_method
        263; // reserved
    assert_eq!(vault_update_state_tracker_size, sum_of_fields);
}

#[test]
fn test_update_index_zero_ok() {
    let mut vault_update_state_tracker =
        VaultUpdateStateTracker::new(new_key(), 0, 0, 0);

    assert!(vault_update_state_tracker
        .check_and_update_index(0, 1)
        .is_ok());
}

#[test]
fn test_update_index_skip_zero_fails() {
    let mut vault_update_state_tracker =
        VaultUpdateStateTracker::new(new_key(), 0, 0, 0);
    assert_eq!(
        vault_update_state_tracker.check_and_update_index(1, 2),
        Err(VaultError::VaultUpdateIncorrectIndex)
    );
}

#[test]
fn test_update_index_skip_index_fails() {
    let mut vault_update_state_tracker =
        VaultUpdateStateTracker::new(new_key(), 0, 0, 0);
    let n = 4;
    vault_update_state_tracker
        .check_and_update_index(0, n)
        .unwrap();
    vault_update_state_tracker
        .check_and_update_index(1, n)
        .unwrap();
    assert_eq!(
        vault_update_state_tracker.check_and_update_index(3, n),
        Err(VaultError::VaultUpdateIncorrectIndex)
    );
}

#[test]
fn test_update_index_wraparound() {
    let n = 4;
    // Epoch 6, offset is 6 % 4 = 2
    let mut vault_update_state_tracker =
        VaultUpdateStateTracker::new(new_key(), 6, 0, 0);

    assert_eq!(
        vault_update_state_tracker.check_and_update_index(0, n),
        Err(VaultError::VaultUpdateIncorrectIndex)
    );

    vault_update_state_tracker
        .check_and_update_index(2, n)
        .unwrap();
    assert_eq!(vault_update_state_tracker.last_updated_index(), 2);

    vault_update_state_tracker
        .check_and_update_index(3, n)
        .unwrap();

    vault_update_state_tracker
        .check_and_update_index(0, n)
        .unwrap();
    assert_eq!(vault_update_state_tracker.last_updated_index(), 0);

    vault_update_state_tracker
        .check_and_update_index(1, n)
        .unwrap();
    assert_eq!(vault_update_state_tracker.last_updated_index(), 1);

    assert!(vault_update_state_tracker.all_operators_updated(n).unwrap());
}

#[test]
fn test_all_operators_updated() {
    let n = 4;

    // Cranking not started
    let mut tracker = VaultUpdateStateTracker::new(new_key(), 0, 0, 0);
    assert_eq!(tracker.all_operators_updated(n).unwrap(), false);

    // Middle of cranking
    tracker.last_updated_index = 1;
    assert_eq!(tracker.all_operators_updated(n).unwrap(), false);

    // All operators updated, start_index = 0
    tracker.last_updated_index = 3;
    assert_eq!(tracker.all_operators_updated(n).unwrap(), true);

    // All operators updated, start_index != 0
    let mut tracker = VaultUpdateStateTracker::new(new_key(), 1, 0, 0);
    tracker.last_updated_index = 0;
    assert_eq!(tracker.all_operators_updated(n).unwrap(), true);

    // Single operator
    let mut tracker = VaultUpdateStateTracker::new(new_key(), 2, 0, 0);
    tracker.last_updated_index = 0;
    assert_eq!(tracker.all_operators_updated(1).unwrap(), true);

    // Error - division by zero
    let mut tracker = VaultUpdateStateTracker::new(new_key(), 0, 0, 0);
    tracker.last_updated_index = 0;
    assert_eq!(
        tracker.all_operators_updated(0),
        Err(VaultError::DivisionByZero)
    );
}
