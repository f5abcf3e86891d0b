use solana_program::pubkey::Pubkey;
use vault_core::address::Address;
use vault_core::error::ProgramError;
use vault_core::result::VaultCoreError;
use vault_core::vault_delegation_list::{UndelegateForWithdrawMethod, VaultDelegationList, VaultDelegationUpdateSummary};

fn new_key() -> Address {
    Address::new(Pubkey::new_unique().to_bytes())
}
fn setup_vault_delegation_list() -> VaultDelegationList {
    VaultDelegationList::new(new_key(), 255)
}

#[test]
fn test_delegate_new_operator() {
    let mut list = setup_vault_delegation_list();
    let operator = new_key();

    assert!(list.delegate(operator, 100, 1_000).is_ok());
    assert_eq!(list.total_security().unwrap(), 100);

    assert_eq!(list.delegations().len(), 1);
    let delegation = list.delegations().get(0).unwrap();
    assert_eq!(delegation.operator, operator);
    assert_eq!(delegation.staked_amount, 100);
    assert_eq!(delegation.total_security().unwrap(), 100);
}

#[test]
fn test_delegate_existing_operator() {
    let mut list = setup_vault_delegation_list();
    let operator = new_key();
    list.delegate(operator, 100, 1_000).unwrap();
    list.delegate(operator, 50, 1_000).unwrap();
    assert_eq!(list.total_security().unwrap(), 150);

    assert_eq!(list.delegations().len(), 1);
    let delegation = list.delegations().get(0).unwrap();
    assert_eq!(delegation.operator, operator);
    assert_eq!(delegation.staked_amount, 150);
}

#[test]
fn test_undelegate() {
    let mut list = setup_vault_delegation_list();
    let operator = new_key();

    list.delegate(operator, 100, 1_000).unwrap();
    list.undelegate(operator, 30).unwrap();

    assert_eq!(list.delegations().len(), 1);
    let delegation = list.delegations().get(0).unwrap();
    assert_eq!(delegation.staked_amount, 70);
    assert_eq!(delegation.enqueued_for_cooldown_amount, 30);
    assert_eq!(delegation.total_security().unwrap(), 100);
}

#[test]
fn test_slash() {
    let mut list = setup_vault_delegation_list();
    let operator = new_key();

    list.delegate(operator, 100, 1_000).unwrap();
    list.slash(&operator, 20).unwrap();

    let delegation = list.delegations().get(0).unwrap();
    assert_eq!(delegation.staked_amount, 80);
    assert_eq!(delegation.total_security().unwrap(), 80);
}

#[test]
fn test_update() {
    let mut list = setup_vault_delegation_list();
    let operator = new_key();
    let amount = 100;
    let total_deposited = 1000;
    let epoch_length = 100;

    list.delegate(operator, amount, total_deposited).unwrap();
    list.undelegate(operator, 30).unwrap();

    // Simulate passing of one epoch
    assert_eq!(
        list.update(epoch_length, epoch_length).unwrap(),
        VaultDelegationUpdateSummary::Updated {
            amount_reserved_for_withdraw: 0
        }
    );

    let delegation = list.delegations().get(0).unwrap();
    assert_eq!(delegation.staked_amount, 70);
    assert_eq!(delegation.cooling_down_amount, 30);
    assert_eq!(delegation.enqueued_for_cooldown_amount, 0);

    // Simulate passing of another epoch
    assert_eq!(
        list.update(epoch_length * 2, epoch_length).unwrap(),
        VaultDelegationUpdateSummary::Updated {
            amount_reserved_for_withdraw: 0
        }
    );

    let delegation = list.delegations().get(0).unwrap();
    assert_eq!(delegation.staked_amount, 70);
    assert_eq!(delegation.cooling_down_amount, 0);
}

#[test]
fn test_undelegate_for_withdraw_and_over_delegate() {
    let mut list = setup_vault_delegation_list();
    let operator = new_key();

    list.delegate(operator, 500, 1000).unwrap();
    list.undelegate_for_withdrawal(200, UndelegateForWithdrawMethod::ProRata)
        .unwrap();

    assert_eq!(list.delegations().len(), 1);
    let delegation = list.delegations().get(0).unwrap();
    assert_eq!(delegation.staked_amount, 300);
    assert_eq!(delegation.enqueued_for_withdraw_amount, 200);

    assert_eq!(
        list.update(100, 100).unwrap(),
        VaultDelegationUpdateSummary::Updated {
            amount_reserved_for_withdraw: 0
        }
    );
    assert_eq!(
        list.update(200, 100).unwrap(),
        VaultDelegationUpdateSummary::Updated {
            amount_reserved_for_withdraw: 200
        }
    );
    assert_eq!(list.total_security().unwrap(), 300);

    assert_eq!(
        list.delegate(operator, 701, 1000),
        Err(VaultCoreError::VaultDelegationListInsufficientSecurity)
    );
}

#[test]
fn test_undelegate_for_withdraw_pro_rata_single_operator() {
    let mut list = VaultDelegationList::new(new_key(), 255);
    let operator = new_key();
    list.delegate(operator, 1000, 1000).unwrap();

    list.undelegate_for_withdrawal(500, UndelegateForWithdrawMethod::ProRata)
        .unwrap();

    let delegation = list.delegations().get(0).unwrap();
    assert_eq!(delegation.staked_amount, 500);
    assert_eq!(delegation.enqueued_for_withdraw_amount, 500);
}

#[test]
fn test_undelegate_for_withdraw_pro_rata_multiple_operators() {
    let mut list = setup_vault_delegation_list();
    let operator1 = new_key();
    let operator2 = new_key();
    let operator3 = new_key();

    list.delegate(operator1, 1000, 3000).unwrap();
    list.delegate(operator2, 1500, 3000).unwrap();
    list.delegate(operator3, 500, 3000).unwrap();

    let total_delegated_before_undelegation = list.total_security().unwrap();

    list.undelegate_for_withdrawal(600, UndelegateForWithdrawMethod::ProRata)
        .unwrap();

    assert_eq!(
        total_delegated_before_undelegation,
        list.total_security().unwrap()
    );

    // 3000 total staked, 600 withdrawn
    let delegations = list.delegations();
    assert_eq!(delegations[0].staked_amount, 800);
    assert_eq!(delegations[0].enqueued_for_withdraw_amount, 200);
    assert_eq!(delegations[1].staked_amount, 1200);
    assert_eq!(delegations[1].enqueued_for_withdraw_amount, 300);
    assert_eq!(delegations[2].staked_amount, 400);
    assert_eq!(delegations[2].enqueued_for_withdraw_amount, 100);
}

#[test]
fn test_undelegate_for_withdraw_pro_rata_rounding() {
    let mut list = setup_vault_delegation_list();
    let operator1 = new_key();
    let operator2 = new_key();
    let operator3 = new_key();

    list.delegate(operator1, 100, 301).unwrap();
    list.delegate(operator2, 100, 301).unwrap();
    list.delegate(operator3, 101, 301).unwrap();

    list.undelegate_for_withdrawal(100, UndelegateForWithdrawMethod::ProRata)
        .unwrap();

    let delegations = list.delegations();
    assert_eq!(delegations[0].enqueued_for_withdraw_amount, 34);
    assert_eq!(delegations[1].enqueued_for_withdraw_amount, 34);
    assert_eq!(delegations[2].enqueued_for_withdraw_amount, 32);
}

#[test]
fn test_undelegate_for_withdraw_pro_rata_insufficient_funds() {
    let mut list = setup_vault_delegation_list();
    let operator = new_key();
    list.delegate(operator, 100, 100).unwrap();

    let result = list.undelegate_for_withdrawal(101, UndelegateForWithdrawMethod::ProRata);
    assert!(matches!(
        result,
        Err(VaultCoreError::WithdrawAmountExceedsDelegatedFunds)
    ));
}

#[test]
fn test_undelegate_for_withdraw_pro_rata_no_delegations() {
    let mut list = setup_vault_delegation_list();

    let result = list.undelegate_for_withdrawal(100, UndelegateForWithdrawMethod::ProRata);
    assert!(matches!(
        result,
        Err(VaultCoreError::WithdrawAmountExceedsDelegatedFunds)
    ));
}

#[test]
fn test_undelegate_for_withdraw_pro_rata_zero_amount() {
    let mut list = setup_vault_delegation_list();
    let operator = new_key();
    list.delegate(operator, 100, 100).unwrap();

    list.undelegate_for_withdrawal(0, UndelegateForWithdrawMethod::ProRata)
        .unwrap();

    let delegation = list.delegations().get(0).unwrap();
    assert_eq!(delegation.staked_amount, 100);
    assert_eq!(delegation.enqueued_for_withdraw_amount, 0);
}

// ensures cooling down assets are handled correctly when undelegating
#[test]
fn test_undelegate_for_withdraw_with_enqueued_for_cooling_down_assets() {
    let mut list = setup_vault_delegation_list();
    let total_deposited = 100_000;

    let operator_1 = new_key();
    list.delegate(operator_1, 10_000, total_deposited).unwrap();

    let operator_2 = new_key();
    list.delegate(operator_2, 60_000, total_deposited).unwrap();

    let operator_3 = new_key();
    list.delegate(operator_3, 30_000, total_deposited).unwrap();

    list.undelegate(operator_2, 30_000).unwrap();

    assert_eq!(list.total_security().unwrap(), total_deposited);

    let delegation_1 = list.delegations().get(0).unwrap();
    assert_eq!(delegation_1.operator, operator_1);
    assert_eq!(delegation_1.withdrawable_security().unwrap(), 10_000);

    let delegation_2 = list.delegations().get(1).unwrap();
    assert_eq!(delegation_2.operator, operator_2);
    assert_eq!(delegation_2.withdrawable_security().unwrap(), 60_000);
    assert_eq!(delegation_2.staked_amount, 30_000);
    assert_eq!(delegation_2.enqueued_for_cooldown_amount, 30_000);

    let delegation_3 = list.delegations().get(2).unwrap();
    assert_eq!(delegation_3.operator, operator_3);
    assert_eq!(delegation_3.withdrawable_security().unwrap(), 30_000);

    list.undelegate_for_withdrawal(50_000, UndelegateForWithdrawMethod::ProRata)
        .unwrap();

    // 10% of assets staked -> 10% of withdraw
    let delegation_1 = list.delegations().get(0).unwrap();
    assert_eq!(delegation_1.operator, operator_1);
    assert_eq!(delegation_1.total_security().unwrap(), 10_000);
    assert_eq!(delegation_1.enqueued_for_withdraw_amount, 5_000);

    // 30k was staked, 30k was cooling down
    // 60% of assets staked -> 60% of withdraw -> 30,000 withdrawn
    let delegation_2 = list.delegations().get(1).unwrap();
    assert_eq!(delegation_2.total_security().unwrap(), 60_000);
    assert_eq!(delegation_2.operator, operator_2);
    assert_eq!(delegation_2.staked_amount, 0);
    assert_eq!(delegation_2.enqueued_for_withdraw_amount, 30_000);
    assert_eq!(delegation_2.enqueued_for_cooldown_amount, 30_000);

    // 30% of assets staked -> 30% of withdraw
    let delegation_3 = list.delegations().get(2).unwrap();
    assert_eq!(delegation_3.total_security().unwrap(), 30_000);
    assert_eq!(delegation_3.operator, operator_3);
    assert_eq!(delegation_3.enqueued_for_withdraw_amount, 15_000);
}

/// ensures that assets cooling down for withdraw are handled correctly when undelegating
#[test]
fn test_undelegate_for_withdraw_with_cooling_down_for_withdrawal_assets() {
    let mut list = setup_vault_delegation_list();
    let total_deposited = 100_000;

    let operator_1 = new_key();
    list.delegate(operator_1, 10_000, total_deposited).unwrap();

    let operator_2 = new_key();
    list.delegate(operator_2, 60_000, total_deposited).unwrap();

    let operator_3 = new_key();
    list.delegate(operator_3, 25_000, total_deposited).unwrap();

    list.undelegate_for_withdrawal(30_000, UndelegateForWithdrawMethod::ProRata)
        .unwrap();

    // 10000 * 30000 /_ceil 95000
    let delegation_1 = list.delegations.get(0).unwrap();
    assert_eq!(delegation_1.enqueued_for_withdraw_amount, 3_158);

    // 60000 * 30000 /_ceil 95000
    let delegation_2 = list.delegations.get(1).unwrap();
    assert_eq!(delegation_2.enqueued_for_withdraw_amount, 18_948);

    // min(25000 * 30000 /_ceil 95000, 30000 - 18948 - 3158)
    let delegation_3 = list.delegations.get(2).unwrap();
    assert_eq!(delegation_3.enqueued_for_withdraw_amount, 7_894);

    // send 5k more to operator 3
    list.delegate(operator_3, 5_000, total_deposited).unwrap();

    list.undelegate_for_withdrawal(20_000, UndelegateForWithdrawMethod::ProRata)
        .unwrap();

    // 3158 + ((10000 - 3158) * 20000 /_ceil 70000)
    let delegation_1 = list.delegations.get(0).unwrap();
    assert_eq!(delegation_1.enqueued_for_withdraw_amount, 5113);

    // 18948 + ((60000 - 18948) * 20000 /_ceil 70000)
    let delegation_2 = list.delegations.get(1).unwrap();
    assert_eq!(delegation_2.enqueued_for_withdraw_amount, 30678);

    // minimum of 7894 + ((30000 -  7894) * 20000 /_ceil 70000) and whatever is left to get to 50000 total
    // undelegated
    let delegation_3 = list.delegations.get(2).unwrap();
    assert_eq!(delegation_3.enqueued_for_withdraw_amount, 14209);
}

#[test]
fn test_undelegate_for_withdraw_ceiling_ok() {
    let mut list = setup_vault_delegation_list();
    let total_deposited = 100_000;

    let operator_1 = new_key();
    list.delegate(operator_1, 1, total_deposited).unwrap();

    let operator_2 = new_key();
    list.delegate(operator_2, 99_999, total_deposited).unwrap();

    list.undelegate_for_withdrawal(99_999, UndelegateForWithdrawMethod::ProRata)
        .unwrap();

    // 1 * 99999 / 100000
    let delegation_1 = list.delegations().get(0).unwrap();
    assert_eq!(delegation_1.enqueued_for_withdraw_amount, 1);

    let delegation_2 = list.delegations().get(1).unwrap();
    assert_eq!(delegation_2.enqueued_for_withdraw_amount, 99_998);
}

#[test]
fn test_slash_with_enqueued_for_cooldown_down_assets() {
    let mut list = setup_vault_delegation_list();
    let total_deposited = 100_000;

    let operator_1 = new_key();
    list.delegate(operator_1, 100_000, total_deposited).unwrap();
    list.undelegate(operator_1, 25_000).unwrap();

    list.slash(&operator_1, 10_000).unwrap();

    let delegation = list.delegations().get(0).unwrap();

    // 100k staked, 25k enqueued + 10k slashed
    // 25% of staked assets was enqueued for cooldown -> 25% of slashed funds -> 2500
    assert_eq!(delegation.staked_amount, 67500);
    assert_eq!(delegation.enqueued_for_cooldown_amount, 22500);
    assert_eq!(delegation.total_security().unwrap(), 90_000);
}

#[test]
fn test_slash_with_cooling_down_assets() {
    let mut list = setup_vault_delegation_list();
    let total_deposited = 100_000;

    let operator_1 = new_key();
    list.delegate(operator_1, 100_000, total_deposited).unwrap();
    list.undelegate(operator_1, 25_000).unwrap();

    list.update(100, 100).unwrap();

    list.slash(&operator_1, 10_000).unwrap();

    let delegation = list.delegations().get(0).unwrap();

    // 100k staked, 25k cooldown + 10k slashed
    // 25% of staked assets were cooling down -> 25% of slashed funds -> 2500
    assert_eq!(delegation.staked_amount, 67500);
    assert_eq!(delegation.cooling_down_amount, 22500);
    assert_eq!(delegation.total_security().unwrap(), 90_000);
}

#[test]
fn test_slash_with_enqueued_for_cooldown_and_cooling_down_assets() {
    let mut list = setup_vault_delegation_list();
    let total_deposited = 100_000;

    let operator_1 = new_key();
    list.delegate(operator_1, 100_000, total_deposited).unwrap();

    list.undelegate(operator_1, 12500).unwrap();
    list.update(100, 100).unwrap();
    list.undelegate(operator_1, 12500).unwrap();

    list.slash(&operator_1, 10_000).unwrap();

    let delegation = list.delegations().get(0).unwrap();

    assert_eq!(delegation.staked_amount, 67500);
    assert_eq!(delegation.cooling_down_amount, 11250);
    assert_eq!(delegation.enqueued_for_cooldown_amount, 11250);
    assert_eq!(delegation.total_security().unwrap(), 90_000);
}

#[test]
fn test_slash_with_enqueued_for_withdraw_assets() {
    let mut list = setup_vault_delegation_list();
    let total_deposited = 100_000;

    let operator_1 = new_key();
    list.delegate(operator_1, 100_000, total_deposited).unwrap();
    list.undelegate_for_withdrawal(25_000, UndelegateForWithdrawMethod::ProRata)
        .unwrap();

    list.slash(&operator_1, 10_000).unwrap();

    let delegation = list.delegations().get(0).unwrap();

    assert_eq!(delegation.staked_amount, 67500);
    assert_eq!(delegation.enqueued_for_withdraw_amount, 22500);
    assert_eq!(delegation.total_security().unwrap(), 90_000);
}

#[test]
fn test_slash_with_cooling_down_for_withdraw_assets() {
    let mut list = setup_vault_delegation_list();
    let total_deposited = 100_000;

    let operator_1 = new_key();
    list.delegate(operator_1, 100_000, total_deposited).unwrap();

    list.undelegate_for_withdrawal(25_000, UndelegateForWithdrawMethod::ProRata)
        .unwrap();
    list.slash(&operator_1, 10_000).unwrap();
    list.update(100, 100).unwrap();

    let delegation = list.delegations().get(0).unwrap();

    assert_eq!(delegation.staked_amount, 67500);
    assert_eq!(delegation.cooling_down_for_withdraw_amount, 22500);
    assert_eq!(delegation.total_security().unwrap(), 90_000);
}

#[test]
fn test_slash_with_enqueued_for_withdraw_and_cooling_down_for_withdraw() {
    let mut list = setup_vault_delegation_list();
    let total_deposited = 100_000;

    let operator_1 = new_key();
    list.delegate(operator_1, 100_000, total_deposited).unwrap();

    list.undelegate_for_withdrawal(12500, UndelegateForWithdrawMethod::ProRata)
        .unwrap();
    list.update(100, 100).unwrap();
    list.undelegate_for_withdrawal(12500, UndelegateForWithdrawMethod::ProRata)
        .unwrap();

    list.slash(&operator_1, 10_000).unwrap();

    let delegation = list.delegations().get(0).unwrap();
    assert_eq!(delegation.staked_amount, 67500);
    assert_eq!(delegation.cooling_down_for_withdraw_amount, 11250);
    assert_eq!(delegation.enqueued_for_withdraw_amount, 11250);
    assert_eq!(delegation.total_security().unwrap(), 90_000);
}

#[test]
fn test_slash_with_withdraw_reserves() {
    let mut list = setup_vault_delegation_list();
    let total_deposited = 100_000;

    let operator_1 = new_key();
    list.delegate(operator_1, 100_000, total_deposited).unwrap();

    list.undelegate_for_withdrawal(25_000, UndelegateForWithdrawMethod::ProRata)
        .unwrap();
    list.update(100, 100).unwrap();
    list.undelegate_for_withdrawal(25_000, UndelegateForWithdrawMethod::ProRata)
        .unwrap();
    assert_eq!(
        list.update(200, 100).unwrap(),
        VaultDelegationUpdateSummary::Updated {
            amount_reserved_for_withdraw: 25_000
        }
    );

    let delegation = list.delegations().get(0).unwrap();
    assert_eq!(delegation.staked_amount, 50000);
    assert_eq!(delegation.cooling_down_for_withdraw_amount, 25000);
    assert_eq!(delegation.total_security().unwrap(), 75000);

    list.slash(&operator_1, 10_000).unwrap();
    let delegation = list.delegations().get(0).unwrap();

    // 2/3 staked -> 2/3 of slashed
    assert_eq!(delegation.staked_amount, 43333);
    assert_eq!(delegation.cooling_down_for_withdraw_amount, 21667);
    assert_eq!(delegation.total_security().unwrap(), 65000);
}
