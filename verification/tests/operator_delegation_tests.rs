use solana_program::pubkey::Pubkey;
use vault_core::address::Address;
use vault_core::operator_delegation::OperatorDelegation;
use vault_core::result::VaultCoreError;

fn new_key() -> Address {
    Address::new(Pubkey::new_unique().to_bytes())
}
#[test]
fn operator_delegation_test_delegate() {
    let mut operator_delegation = OperatorDelegation::new(new_key());
    operator_delegation.delegate(100).unwrap();
    assert_eq!(operator_delegation.staked_amount(), 100);
    assert_eq!(operator_delegation.total_security().unwrap(), 100);
}

#[test]
fn test_undelegate_with_updates() {
    let mut operator_delegation = OperatorDelegation::new(new_key());
    operator_delegation.delegate(100).unwrap();
    operator_delegation.undelegate(50).unwrap();

    assert_eq!(operator_delegation.staked_amount(), 50);
    assert_eq!(operator_delegation.enqueued_for_cooldown_amount(), 50);
    assert_eq!(operator_delegation.cooling_down_amount(), 0);
    assert_eq!(operator_delegation.total_security().unwrap(), 100);

    assert_eq!(operator_delegation.update(), 0);

    assert_eq!(operator_delegation.staked_amount(), 50);
    assert_eq!(operator_delegation.enqueued_for_cooldown_amount(), 0);
    assert_eq!(operator_delegation.cooling_down_amount(), 50);
    assert_eq!(operator_delegation.total_security().unwrap(), 100);

    assert_eq!(operator_delegation.update(), 0);

    assert_eq!(operator_delegation.staked_amount(), 50);
    assert_eq!(operator_delegation.enqueued_for_cooldown_amount(), 0);
    assert_eq!(operator_delegation.cooling_down_amount(), 0);
    assert_eq!(operator_delegation.total_security().unwrap(), 50);
}

#[test]
fn test_undelegate_for_withdraw_with_updates() {
    let mut operator_delegation = OperatorDelegation::new(new_key());
    operator_delegation.delegate(100).unwrap();
    operator_delegation.undelegate_for_withdraw(50).unwrap();

    assert_eq!(operator_delegation.staked_amount(), 50);
    assert_eq!(operator_delegation.enqueued_for_withdraw_amount(), 50);
    assert_eq!(operator_delegation.cooling_down_for_withdraw_amount(), 0);
    assert_eq!(operator_delegation.total_security().unwrap(), 100);

    assert_eq!(operator_delegation.update(), 0);

    assert_eq!(operator_delegation.staked_amount(), 50);
    assert_eq!(operator_delegation.enqueued_for_withdraw_amount(), 0);
    assert_eq!(operator_delegation.cooling_down_for_withdraw_amount(), 50);
    assert_eq!(operator_delegation.total_security().unwrap(), 100);

    assert_eq!(operator_delegation.update(), 50);

    assert_eq!(operator_delegation.staked_amount(), 50);
    assert_eq!(operator_delegation.enqueued_for_withdraw_amount(), 0);
    assert_eq!(operator_delegation.cooling_down_for_withdraw_amount(), 0);
    assert_eq!(operator_delegation.total_security().unwrap(), 50);
}

#[test]
fn test_slashing_simple() {
    let mut operator_delegation = OperatorDelegation::new(new_key());
    operator_delegation.delegate(100_000).unwrap();
    operator_delegation.undelegate(10_000).unwrap();
    operator_delegation.slash(5_000).unwrap();

    assert_eq!(operator_delegation.total_security().unwrap(), 95_000);
    assert_eq!(operator_delegation.staked_amount(), 85_500);
}

#[test]
fn test_undelegate_for_withdraw_with_cooling_down() {
    let mut operator_delegation = OperatorDelegation::new(new_key());
    operator_delegation.delegate(100_000).unwrap();
    assert_eq!(operator_delegation.staked_amount(), 100_000);

    operator_delegation.undelegate(10_000).unwrap();
    assert_eq!(operator_delegation.staked_amount(), 90_000);
    assert_eq!(operator_delegation.enqueued_for_cooldown_amount(), 10_000);

    operator_delegation.undelegate_for_withdraw(95_000).unwrap();
    assert_eq!(operator_delegation.staked_amount(), 0);
    assert_eq!(operator_delegation.enqueued_for_cooldown_amount(), 5_000);
    assert_eq!(operator_delegation.enqueued_for_withdraw_amount(), 95_000);
}

#[test]
fn test_undelegate_for_withdraw_not_enough_security() {
    let mut operator_delegation = OperatorDelegation::new(new_key());
    operator_delegation.delegate(100_000).unwrap();

    operator_delegation
        .undelegate_for_withdraw(100_001)
        .unwrap_err();

    let mut operator_delegation = OperatorDelegation::new(new_key());
    operator_delegation.delegate(100_000).unwrap();
    operator_delegation.undelegate_for_withdraw(50_000).unwrap();
    operator_delegation
        .undelegate_for_withdraw(50_001)
        .unwrap_err();
}

/// Test pulling assets from enqueued for cooling down after staked assets are exhausted
#[test]
fn test_undelegate_for_withdraw_pull_from_enqueued_for_cooling_down() {
    let mut operator_delegation = OperatorDelegation::new(new_key());

    operator_delegation.delegate(100_000).unwrap();
    assert_eq!(operator_delegation.total_security().unwrap(), 100_000);

    operator_delegation.undelegate(50_000).unwrap();
    assert_eq!(operator_delegation.total_security().unwrap(), 100_000);
    assert_eq!(operator_delegation.staked_amount(), 50_000);
    assert_eq!(operator_delegation.enqueued_for_cooldown_amount(), 50_000);

    // shall pull 50,000 from the staked and 10,000 from the undelegated
    operator_delegation.undelegate_for_withdraw(60_000).unwrap();

    assert_eq!(operator_delegation.total_security().unwrap(), 100_000);
    assert_eq!(operator_delegation.staked_amount(), 0);
    assert_eq!(operator_delegation.enqueued_for_withdraw_amount(), 60_000);
    assert_eq!(operator_delegation.enqueued_for_cooldown_amount(), 40_000);
}

/// Test pulling assets from cooling down after staked assets are exhausted
#[test]
fn test_undelegate_for_withdraw_pull_from_cooling_down() {
    let mut operator_delegation = OperatorDelegation::new(new_key());

    operator_delegation.delegate(100_000).unwrap();
    assert_eq!(operator_delegation.total_security().unwrap(), 100_000);

    operator_delegation.undelegate(50_000).unwrap();
    assert_eq!(operator_delegation.total_security().unwrap(), 100_000);
    assert_eq!(operator_delegation.staked_amount(), 50_000);
    assert_eq!(operator_delegation.enqueued_for_cooldown_amount(), 50_000);

    assert_eq!(operator_delegation.update(), 0);

    // shall pull 50,000 from the staked and 10,000 from the undelegated
    operator_delegation.undelegate_for_withdraw(60_000).unwrap();

    assert_eq!(operator_delegation.total_security().unwrap(), 100_000);
    assert_eq!(operator_delegation.staked_amount(), 0);
    assert_eq!(operator_delegation.enqueued_for_withdraw_amount(), 60_000);
    assert_eq!(operator_delegation.cooling_down_amount(), 40_000);
}

#[test]
fn test_undelegate_for_withdraw_pull_from_enqueued_for_cooling_down_and_cooling_down() {
    let mut operator_delegation = OperatorDelegation::new(new_key());

    operator_delegation.delegate(100_000).unwrap();
    assert_eq!(operator_delegation.total_security().unwrap(), 100_000);

    operator_delegation.undelegate(50_000).unwrap();
    assert_eq!(operator_delegation.total_security().unwrap(), 100_000);
    assert_eq!(operator_delegation.staked_amount(), 50_000);
    assert_eq!(operator_delegation.enqueued_for_cooldown_amount(), 50_000);

    assert_eq!(operator_delegation.update(), 0);

    operator_delegation.undelegate(10_000).unwrap();

    // 100k total security, 40k staked, 10k in enqueued for cooling down, 50k in cooling down

    operator_delegation.undelegate_for_withdraw(60_000).unwrap();
    // shall pull 40,000 from the staked, 10k from the enqueued for cooling down, and 10k from cooling down

    assert_eq!(operator_delegation.total_security().unwrap(), 100_000);
    assert_eq!(operator_delegation.staked_amount(), 0);
    assert_eq!(operator_delegation.enqueued_for_cooldown_amount(), 0);
    assert_eq!(operator_delegation.cooling_down_amount(), 40_000);
    assert_eq!(operator_delegation.enqueued_for_withdraw_amount(), 60_000);
}
