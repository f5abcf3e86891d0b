use solana_program::pubkey::Pubkey;
use vault_core::account::AccountView;
use vault_core::address::Address;
use vault_core::delegation_state::DelegationState;
use vault_core::error::{ProgramError, VaultError};
use vault_core::vault::{BurnSummary, MintSummary, Vault, VAULT_ACCOUNT_LEN};
use vault_core::{MAX_BPS, MAX_FEE_BPS};

fn new_key() -> Address {
    Address::new(Pubkey::new_unique().to_bytes())
}
fn make_test_vault(
    deposit_fee_bps: u16,
    withdrawal_fee_bps: u16,
    program_fee_bps: u16,
    tokens_deposited: u64,
    vrt_supply: u64,
    delegation_state: DelegationState,
) -> Vault {
    let mut vault = Vault::new(
        new_key(),
        new_key(),
        new_key(),
        0,
        new_key(),
        deposit_fee_bps,
        withdrawal_fee_bps,
        0,
        program_fee_bps,
        0,
        0,
    )
    .unwrap();

    vault.set_tokens_deposited(tokens_deposited);
    vault.set_vrt_supply(vrt_supply);
    vault.delegation_state = delegation_state;
    vault
}

#[test]
fn test_vault_no_padding() {
    let vault_size = VAULT_ACCOUNT_LEN - 8;
    let sum_of_fields = std::mem::size_of::<[u8; 32]>() + // base
        std::mem::size_of::<[u8; 32]>() + // vrt_mint
        std::mem::size_of::<[u8; 32]>() + // supported_mint
        std::mem::size_of::<u64>() + // vrt_supply
        std::mem::size_of::<u64>() + // tokens_deposited
        std::mem::size_of::<u64>() + // capacity
        (3 * std::mem::size_of::<u64>() + 256) + // delegation_state
        std::mem::size_of::<u64>() + // additional_assets_needed_to_unstake
        std::mem::size_of::<u64>() + // vrt_enqueued_for_cooldown_amount
        std::mem::size_of::<u64>() + // vrt_cooling_down_amount
        std::mem::size_of::<u64>() + // vrt_ready_to_claim_amount
        std::mem::size_of::<[u8; 32]>() + // admin
        std::mem::size_of::<[u8; 32]>() + // delegation_admin
        std::mem::size_of::<[u8; 32]>() + // operator_admin
        std::mem::size_of::<[u8; 32]>() + // ncn_admin
        std::mem::size_of::<[u8; 32]>() + // slasher_admin
        std::mem::size_of::<[u8; 32]>() + // capacity_admin
        std::mem::size_of::<[u8; 32]>() + // fee_admin
        std::mem::size_of::<[u8; 32]>() + // delegate_asset_admin
        std::mem::size_of::<[u8; 32]>() + // fee_wallet
        std::mem::size_of::<[u8; 32]>() + // mint_burn_admin
        std::mem::size_of::<[u8; 32]>() + // metadata_admin
        std::mem::size_of::<u64>() + // vault_index
        std::mem::size_of::<u64>() + // ncn_count
        std::mem::size_of::<u64>() + // operator_count
        std::mem::size_of::<u64>() + // slasher_count
        std::mem::size_of::<u64>() + // last_fee_change_slot
        std::mem::size_of::<u64>() + // last_full_state_update_slot
        std::mem::size_of::<u16>() + // deposit_fee_bps
        std::mem::size_of::<u16>() + // withdrawal_fee_bps
        std::mem::size_of::<u16>() + // reward_fee_bps
        std::mem::size_of::<u16>() + // program_fee_bps
        std::mem::size_of::<bool>() + // is_paused
        1 + // bump
        261; // reserved

    assert_eq!(vault_size, sum_of_fields);
}

#[test]
fn test_update_secondary_admin_ok() {
    let old_admin = new_key();
    let mut vault = Vault::new(
        new_key(),
        new_key(),
        old_admin,
        0,
        new_key(),
        0,
        0,
        0,
        0,
        0,
        0,
    )
    .unwrap();
    vault.mint_burn_admin = old_admin;

    assert_eq!(vault.delegation_admin, old_admin);
    assert_eq!(vault.operator_admin, old_admin);
    assert_eq!(vault.ncn_admin, old_admin);
    assert_eq!(vault.slasher_admin, old_admin);
    assert_eq!(vault.capacity_admin, old_admin);
    assert_eq!(vault.fee_wallet, old_admin);
    assert_eq!(vault.mint_burn_admin, old_admin);
    assert_eq!(vault.delegate_asset_admin, old_admin);
    assert_eq!(vault.fee_admin, old_admin);

    let new_admin = new_key();
    vault.update_secondary_admin(&old_admin, &new_admin);

    assert_eq!(vault.delegation_admin, new_admin);
    assert_eq!(vault.operator_admin, new_admin);
    assert_eq!(vault.ncn_admin, new_admin);
    assert_eq!(vault.slasher_admin, new_admin);
    assert_eq!(vault.capacity_admin, new_admin);
    assert_eq!(vault.fee_wallet, new_admin);
    assert_eq!(vault.mint_burn_admin, new_admin);
    assert_eq!(vault.delegate_asset_admin, new_admin);
    assert_eq!(vault.fee_admin, new_admin);
    assert_eq!(vault.metadata_admin, new_admin);
}

#[test]
fn test_mint_simple_ok() {
    let mut vault = make_test_vault(0, 0, 0, 0, 0, DelegationState::default());
    let MintSummary {
        vrt_to_depositor,
        vrt_to_fee_wallet,
    } = vault.mint_with_fee(100, 100).unwrap();
    assert_eq!(vrt_to_depositor, 100);
    assert_eq!(vrt_to_fee_wallet, 0);
}

#[test]
fn test_mint_with_deposit_fee_ok() {
    let mut vault = make_test_vault(100, 0, 0, 0, 0, DelegationState::default());
    let MintSummary {
        vrt_to_depositor,
        vrt_to_fee_wallet,
    } = vault.mint_with_fee(100, 99).unwrap();
    assert_eq!(vrt_to_depositor, 99);
    assert_eq!(vrt_to_fee_wallet, 1);
    assert_eq!(vault.tokens_deposited(), 100);
    assert_eq!(vault.vrt_supply(), 100);
}

#[test]
fn test_mint_less_than_slippage_fails() {
    let mut vault = make_test_vault(100, 0, 0, 0, 0, DelegationState::default());
    assert_eq!(
        vault.mint_with_fee(100, 100),
        Err(VaultError::SlippageError)
    );
}

#[test]
fn test_deposit_ratio_after_slashed_ok() {
    let mut vault = make_test_vault(0, 0, 0, 90, 100, DelegationState::default());

    let MintSummary {
        vrt_to_depositor, ..
    } = vault.mint_with_fee(100, 111).unwrap();
    assert_eq!(vrt_to_depositor, 111);
    assert_eq!(vault.tokens_deposited(), 190);
    assert_eq!(vault.vrt_supply(), 211);
}

#[test]
fn test_deposit_ratio_after_reward_ok() {
    let mut vault = make_test_vault(0, 0, 0, 200, 100, DelegationState::default());

    let MintSummary {
        vrt_to_depositor, ..
    } = vault.mint_with_fee(100, 50).unwrap();
    assert_eq!(vrt_to_depositor, 50);
    assert_eq!(vault.tokens_deposited(), 300);
    assert_eq!(vault.vrt_supply(), 150);
}

#[test]
fn test_mint_burn_no_admin() {
    let vault = Vault::new(
        new_key(),
        new_key(),
        new_key(),
        0,
        new_key(),
        0,
        0,
        0,
        0,
        0,
        0,
    )
    .unwrap();
    assert_eq!(vault.check_mint_burn_admin(None), Ok(()));
}

#[test]
fn test_mint_burn_signer_account_missing() {
    let mut vault = Vault::new(
        new_key(),
        new_key(),
        new_key(),
        0,
        new_key(),
        0,
        0,
        0,
        0,
        0,
        0,
    )
    .unwrap();
    vault.mint_burn_admin = new_key();
    let err = vault.check_mint_burn_admin(None).unwrap_err();
    assert_eq!(err, VaultError::VaultMintBurnAdminInvalid);
}

#[test]
fn test_mint_burn_signer_address_not_signer() {
    let mut vault = Vault::new(
        new_key(),
        new_key(),
        new_key(),
        0,
        new_key(),
        0,
        0,
        0,
        0,
        0,
        0,
    )
    .unwrap();
    vault.mint_burn_admin = new_key();

    let not_signer = AccountView {
        key: vault.mint_burn_admin,
        owner: new_key(),
        is_signer: false,
        is_writable: false,
        data: vec![0],
    };
    let err = vault.check_mint_burn_admin(Some(&not_signer)).unwrap_err();
    assert_eq!(err, VaultError::VaultMintBurnAdminInvalid);
}

#[test]
fn test_mint_burn_signer_address_invalid() {
    let mut vault = Vault::new(
        new_key(),
        new_key(),
        new_key(),
        0,
        new_key(),
        0,
        0,
        0,
        0,
        0,
        0,
    )
    .unwrap();
    vault.mint_burn_admin = new_key();

    let wrong_address_and_signer = AccountView {
        key: new_key(),
        owner: new_key(),
        is_signer: true,
        is_writable: false,
        data: vec![0],
    };
    let err = vault
        .check_mint_burn_admin(Some(&wrong_address_and_signer))
        .unwrap_err();
    assert_eq!(err, VaultError::VaultMintBurnAdminInvalid);
}

#[test]
fn test_burn_with_fee_ok() {
    let mut vault = make_test_vault(0, 100, 0, 100, 100, DelegationState::default());

    let BurnSummary {
        vault_fee_amount: fee_amount,
        program_fee_amount: _,
        burn_amount,
        out_amount,
    } = vault.burn_with_fee(100).unwrap();
    assert_eq!(fee_amount, 1);
    assert_eq!(burn_amount, 99);
    assert_eq!(out_amount, 99);
}

#[test]
fn test_burn_with_program_fee_ok() {
    let mut vault = make_test_vault(0, 100, 200, 100, 100, DelegationState::default());

    let BurnSummary {
        vault_fee_amount,
        program_fee_amount,
        burn_amount,
        out_amount,
    } = vault.burn_with_fee(100).unwrap();
    assert_eq!(vault_fee_amount, 1);
    assert_eq!(program_fee_amount, 2);
    assert_eq!(burn_amount, 97);
    assert_eq!(out_amount, 97);
}

#[test]
fn test_burn_with_program_fee_priority() {
    let mut vault = make_test_vault(0, 1500, 9000, 100, 100, DelegationState::default());

    let BurnSummary {
        vault_fee_amount,
        program_fee_amount,
        burn_amount,
        out_amount,
    } = vault.burn_with_fee(100).unwrap();
    assert_eq!(program_fee_amount, 90);
    assert_eq!(vault_fee_amount, 10);
    assert_eq!(burn_amount, 0);
    assert_eq!(out_amount, 0);
}

#[test]
fn test_burn_with_max_program_fee() {
    let mut vault = make_test_vault(0, 0, 10000, 100, 100, DelegationState::default());

    let BurnSummary {
        vault_fee_amount,
        program_fee_amount,
        burn_amount,
        out_amount,
    } = vault.burn_with_fee(100).unwrap();
    assert_eq!(vault_fee_amount, 0);
    assert_eq!(program_fee_amount, 100);
    assert_eq!(burn_amount, 0);
    assert_eq!(out_amount, 0);
}

#[test]
fn test_burn_too_much_fails() {
    let mut vault = make_test_vault(0, 100, 0, 100, 100, DelegationState::default());

    assert_eq!(
        vault.burn_with_fee(101),
        Err(VaultError::VaultInsufficientFunds)
    );
}

#[test]
fn test_burn_zero_fails() {
    let mut vault = make_test_vault(0, 100, 0, 100, 100, DelegationState::default());
    assert_eq!(vault.burn_with_fee(0), Err(VaultError::VaultBurnZero));
}

#[test]
fn test_burn_with_delegation_ok() {
    let mut vault = make_test_vault(0, 0, 0, 100, 100, DelegationState::new(10, 10, 0));

    let BurnSummary {
        vault_fee_amount: fee_amount,
        program_fee_amount: _,
        burn_amount,
        out_amount,
    } = vault.burn_with_fee(50).unwrap();
    assert_eq!(fee_amount, 0);
    assert_eq!(burn_amount, 50);
    assert_eq!(out_amount, 50);
    assert_eq!(vault.tokens_deposited(), 50);
    assert_eq!(vault.vrt_supply(), 50);
}

#[test]
fn test_burn_more_than_withdrawable_fails() {
    let mut vault = make_test_vault(0, 0, 0, 100, 100, DelegationState::new(50, 0, 0));

    assert_eq!(vault.burn_with_fee(51), Err(VaultError::VaultUnderflow));
}

#[test]
fn test_burn_all_delegated() {
    let mut vault = make_test_vault(0, 0, 0, 100, 100, DelegationState::new(100, 0, 0));

    let result = vault.burn_with_fee(1);
    assert_eq!(result, Err(VaultError::VaultUnderflow));
}

#[test]
fn test_burn_rounding_issues() {
    let mut vault = make_test_vault(0, 0, 0, 1_000_000, 1_000_000, DelegationState::default());

    let result = vault.burn_with_fee(1).unwrap();
    assert_eq!(result.out_amount, 1);
    assert_eq!(vault.tokens_deposited(), 999_999);
    assert_eq!(vault.vrt_supply(), 999_999);
}

#[test]
fn test_burn_max_values() {
    let mut vault = make_test_vault(0, 100, 0, u64::MAX, u64::MAX, DelegationState::default());
    let result = vault.burn_with_fee(u64::MAX).unwrap();
    let fee_amount = (((u64::MAX as u128) * 100).div_ceil(10000)) as u64;
    assert_eq!(result.vault_fee_amount, fee_amount);
}

#[test]
fn test_burn_different_fees() {
    let mut vault = make_test_vault(0, 500, 0, 10000, 10000, DelegationState::default());

    let result = vault.burn_with_fee(1000).unwrap();
    assert_eq!(result.vault_fee_amount, 50);
    assert_eq!(result.burn_amount, 950);
    assert_eq!(result.out_amount, 950);
}

#[test]
fn test_mint_at_max_capacity() {
    let mut vault = make_test_vault(0, 0, 0, 900, 1000, DelegationState::default());
    vault.set_capacity(1000);

    let result = vault.mint_with_fee(100, 111).unwrap();
    assert_eq!(result.vrt_to_depositor, 111);
    assert_eq!(vault.tokens_deposited(), 1000);

    // Attempt to mint beyond capacity
    let result = vault.mint_with_fee(1, 1);
    assert_eq!(result, Err(VaultError::VaultCapacityExceeded));
}

#[test]
fn test_mint_small_amounts() {
    let mut vault = make_test_vault(0, 0, 0, 1_000_000, 1_000_000, DelegationState::default());

    let result = vault.mint_with_fee(1, 1).unwrap();
    assert_eq!(result.vrt_to_depositor, 1);
    assert_eq!(vault.tokens_deposited(), 1_000_001);
    assert_eq!(vault.vrt_supply(), 1_000_001);
}

#[test]
fn test_mint_different_fees() {
    let mut vault = make_test_vault(500, 0, 0, 0, 0, DelegationState::default());

    let result = vault.mint_with_fee(1000, 950).unwrap();
    assert_eq!(result.vrt_to_depositor, 950);
    assert_eq!(result.vrt_to_fee_wallet, 50);
    assert_eq!(vault.tokens_deposited(), 1000);
    assert_eq!(vault.vrt_supply(), 1000);
}

#[test]
fn test_mint_empty_vault() {
    let mut vault = make_test_vault(0, 0, 0, 0, 0, DelegationState::default());

    let result = vault.mint_with_fee(1000, 1000).unwrap();
    assert_eq!(result.vrt_to_depositor, 1000);
    assert_eq!(result.vrt_to_fee_wallet, 0);
    assert_eq!(vault.tokens_deposited(), 1000);
    assert_eq!(vault.vrt_supply(), 1000);
}

#[test]
fn test_mint_slippage_protection() {
    let mut vault = make_test_vault(100, 0, 0, 0, 0, DelegationState::default());

    // Successful mint within slippage tolerance
    let result = vault.mint_with_fee(1000, 990).unwrap();
    assert_eq!(result.vrt_to_depositor, 990);

    // Failed mint due to slippage
    let result = vault.mint_with_fee(1000, 991);
    assert_eq!(result, Err(VaultError::SlippageError));
}

#[test]
fn test_mint_small_fee() {
    let mut vault = make_test_vault(1, 0, 0, 0, 0, DelegationState::default());
    let MintSummary {
        vrt_to_depositor,
        vrt_to_fee_wallet,
    } = vault.mint_with_fee(1, 0).unwrap();
    assert_eq!(vrt_to_depositor, 0);
    assert_eq!(vrt_to_fee_wallet, 1);
}

#[test]
fn test_burn_small_fee() {
    let mut vault = make_test_vault(0, 1, 0, 0, 0, DelegationState::default());

    vault.mint_with_fee(1, 1).unwrap();
    let BurnSummary {
        vault_fee_amount: fee_amount,
        program_fee_amount: _,
        burn_amount,
        out_amount,
    } = vault.burn_with_fee(1).unwrap();
    assert_eq!(fee_amount, 1);
    assert_eq!(burn_amount, 0);
    assert_eq!(out_amount, 0);
}

#[test]
fn test_delegate_ok() {
    let mut vault = make_test_vault(0, 0, 0, 1000, 1000, DelegationState::default());

    vault.delegate(1000).unwrap();
}

#[test]
fn test_delegate_more_than_available_fails() {
    let mut vault = make_test_vault(0, 0, 0, 1000, 1000, DelegationState::default());
    assert_eq!(
        vault.delegate(1001),
        Err(VaultError::VaultInsufficientFunds)
    );
}

#[test]
fn test_delegate_more_than_available_with_delegate_state_fails() {
    let mut vault = make_test_vault(0, 0, 0, 1000, 1000, DelegationState::new(500, 200, 200));
    assert_eq!(vault.delegate(101), Err(VaultError::VaultInsufficientFunds));
}

#[test]
fn test_delegate_with_delegate_state_ok() {
    let mut vault = make_test_vault(0, 0, 0, 1000, 1000, DelegationState::new(500, 200, 100));
    vault.delegate(100).unwrap();
}

#[test]
fn test_delegate_with_vrt_reserves_ok() {
    let mut vault = make_test_vault(0, 0, 0, 1000, 1000, DelegationState::default());
    vault.increment_vrt_ready_to_claim_amount(100).unwrap();

    vault.delegate(900).unwrap();
}

#[test]
fn test_delegate_more_than_vrt_reserves_fails() {
    let mut vault = make_test_vault(0, 0, 0, 1000, 1000, DelegationState::default());
    vault.increment_vrt_ready_to_claim_amount(100).unwrap();

    assert_eq!(vault.delegate(901), Err(VaultError::VaultInsufficientFunds));
}

#[test]
fn test_delegate_with_vrt_reserves_and_delegated_assets_ok() {
    let mut vault = make_test_vault(0, 0, 0, 1000, 1000, DelegationState::new(100, 100, 100));
    vault.increment_vrt_ready_to_claim_amount(100).unwrap();

    vault.delegate(400).unwrap();
}

#[test]
fn test_delegate_with_vrt_reserves_and_delegated_assets_too_much_fails() {
    let mut vault = make_test_vault(0, 0, 0, 1000, 1000, DelegationState::new(100, 100, 100));
    vault.increment_vrt_ready_to_claim_amount(100).unwrap();

    assert_eq!(vault.delegate(601), Err(VaultError::VaultInsufficientFunds));
}

#[test]
fn test_delegate_with_vrt_reserves_and_delegated_assets_cooling_down_fails() {
    let mut vault = make_test_vault(0, 0, 0, 900, 1000, DelegationState::new(0, 500, 0));
    vault.increment_vrt_ready_to_claim_amount(500).unwrap();
    assert_eq!(vault.delegate(100), Err(VaultError::VaultUnderflow));
}

#[test]
fn test_calculate_supported_assets_requested_for_withdrawal_ok() {
    let mut vault = make_test_vault(0, 0, 0, 1000, 1000, DelegationState::default());
    vault.set_vrt_cooling_down_amount(100);
    let result = vault
        .calculate_supported_assets_requested_for_withdrawal()
        .unwrap();
    assert_eq!(result, 100);
}

#[test]
fn test_calculate_supported_assets_requested_for_withdrawal_with_fee() {
    let mut vault = make_test_vault(0, 100, 0, 1000, 1000, DelegationState::default());
    vault.set_vrt_cooling_down_amount(100);
    let result = vault
        .calculate_supported_assets_requested_for_withdrawal()
        .unwrap();

    // This is correct, because we need to account for the withdrawal fee
    // The withdrawal fee is 0.1% of the total amount, so 1000 * 0.001 = 1
    // The cooling down amount is 100, so we need to reserve 100 - 1 = 99
    assert_eq!(result, 99);
}

#[test]
fn test_calculate_vrt_reserve_amount_with_fee_with_assets_in_different_stages() {
    let mut vault = make_test_vault(0, 100, 0, 1000, 1000, DelegationState::default());
    vault.set_vrt_enqueued_for_cooldown_amount(50);
    vault.set_vrt_cooling_down_amount(25);
    vault.vrt_ready_to_claim_amount = 25;
    let result = vault
        .calculate_supported_assets_requested_for_withdrawal()
        .unwrap();

    assert_eq!(result, 99);
}

#[test]
fn test_calculate_assets_need_undelegating_ok() {
    let mut vault = make_test_vault(0, 0, 0, 1000, 1000, DelegationState::new(1000, 0, 0));
    vault.set_vrt_cooling_down_amount(100);
    let result = vault
        .calculate_additional_supported_assets_needed_to_unstake(100, 100)
        .unwrap();
    assert_eq!(result, 100);

    vault.delegation_state = DelegationState::new(900, 0, 100);
    let result = vault
        .calculate_additional_supported_assets_needed_to_unstake(100, 100)
        .unwrap();
    assert_eq!(result, 0);

    vault.set_vrt_cooling_down_amount(200);
    let result = vault
        .calculate_additional_supported_assets_needed_to_unstake(100, 100)
        .unwrap();
    assert_eq!(result, 100);
}

#[test]
fn test_calculate_assets_need_undelegating_with_assets_cooling_down() {
    let mut vault = make_test_vault(0, 0, 0, 1000, 1000, DelegationState::new(900, 0, 100));
    vault.set_vrt_cooling_down_amount(100);

    let result = vault
        .calculate_additional_supported_assets_needed_to_unstake(100, 100)
        .unwrap();
    assert_eq!(result, 0);

    let result = vault
        .calculate_additional_supported_assets_needed_to_unstake(200, 100)
        .unwrap();
    assert_eq!(result, 0);
}

#[test]
fn test_calculate_assets_need_undelegating_with_assets_cooling_down_2() {
    let mut vault = make_test_vault(0, 0, 0, 1000, 1000, DelegationState::new(800, 100, 100));
    vault.set_vrt_cooling_down_amount(300);

    let result = vault
        .calculate_additional_supported_assets_needed_to_unstake(100, 100)
        .unwrap();
    assert_eq!(result, 100);

    let result = vault
        .calculate_additional_supported_assets_needed_to_unstake(200, 100)
        .unwrap();
    assert_eq!(result, 100);

    vault.increment_vrt_supply(100).unwrap();
    vault.increment_tokens_deposited(100).unwrap();
    let result = vault
        .calculate_additional_supported_assets_needed_to_unstake(200, 100)
        .unwrap();
    assert_eq!(result, 0);
}

#[test]
fn test_calculate_reward_fee() {
    let mut vault = Vault::new(
        new_key(),
        new_key(),
        new_key(),
        0,
        new_key(),
        0,
        0,
        1000, //10%
        0,
        0,
        0,
    )
    .unwrap();
    vault.set_tokens_deposited(0);

    let fee = vault.calculate_st_reward_fee(1000).unwrap();

    assert_eq!(fee, 100);
}

#[test]
fn test_calculate_negative_balance() {
    let mut vault = Vault::new(
        new_key(),
        new_key(),
        new_key(),
        0,
        new_key(),
        0,
        0,
        1000, //10%
        0,
        0,
        0,
    )
    .unwrap();
    vault.set_tokens_deposited(1000);

    let fee = vault.calculate_st_reward_fee(0).unwrap();

    assert_eq!(fee, 0);
}

#[test]
fn test_calculate_100_percent_rewards() {
    let vault = Vault::new(
        new_key(),
        new_key(),
        new_key(),
        0,
        new_key(),
        0,
        0,
        10_000, //100%
        0,
        0,
        0,
    )
    .unwrap();

    let fee = vault.calculate_st_reward_fee(1000).unwrap();

    assert_eq!(fee, 1000);
}

#[test]
fn test_fee_change_after_two_epochs() {
    let mut vault = make_test_vault(0, 0, 0, 0, 0, DelegationState::default());
    vault.last_fee_change_slot = 1;
    assert_eq!(vault.check_can_modify_fees(200, 100), Ok(()));
}

#[test]
fn test_fee_change_within_same_epoch() {
    let mut vault = make_test_vault(0, 0, 0, 0, 0, DelegationState::default());
    vault.last_fee_change_slot = 101;
    assert_eq!(
        vault.check_can_modify_fees(102, 100),
        Err(VaultError::VaultFeeChangeTooSoon)
    );
}

#[test]
fn test_fee_change_in_next_epoch() {
    let mut vault = make_test_vault(0, 0, 0, 0, 0, DelegationState::default());
    vault.last_fee_change_slot = 1;
    assert_eq!(
        vault.check_can_modify_fees(101, 100),
        Err(VaultError::VaultFeeChangeTooSoon)
    );
}

#[test]
fn test_fee_change_at_epoch_boundary() {
    let mut vault = make_test_vault(0, 0, 0, 0, 0, DelegationState::default());
    vault.last_fee_change_slot = 1;
    assert_eq!(
        vault.check_can_modify_fees(100, 100),
        Err(VaultError::VaultFeeChangeTooSoon)
    );
}

#[test]
fn test_fee_increase_within_limits() {
    let current_fee_bps = 100;
    let new_fee_bps = 125;
    let fee_cap_bps = 3000;
    let fee_bump_bps = 10;
    let fee_rate_of_change_bps = 2500;

    // OK: 25% increase <= 25% limit
    assert!(Vault::check_fee_change_ok(
        current_fee_bps,
        new_fee_bps,
        fee_cap_bps,
        fee_bump_bps,
        fee_rate_of_change_bps
    )
    .is_ok());
}

#[test]
fn test_fee_increase_outside_limits() {
    let current_fee_bps = 100;
    let new_fee_bps = 126;
    let fee_cap_bps = 3000;
    let fee_bump_bps = 10;
    let fee_rate_of_change_bps = 2500;

    // ERROR: 26% increase > 25% limit
    assert!(Vault::check_fee_change_ok(
        current_fee_bps,
        new_fee_bps,
        fee_cap_bps,
        fee_bump_bps,
        fee_rate_of_change_bps
    )
    .is_err());
}

#[test]
fn test_fee_increase_inside_bump_limits() {
    let current_fee_bps = 1;
    let new_fee_bps = 10;
    let fee_cap_bps = 3000;
    let fee_bump_bps = 10;
    let fee_rate_of_change_bps = 2500;

    // OK: Δ <= bump
    assert!(Vault::check_fee_change_ok(
        current_fee_bps,
        new_fee_bps,
        fee_cap_bps,
        fee_bump_bps,
        fee_rate_of_change_bps
    )
    .is_ok());
}

#[test]
fn test_fee_increase_outside_bump_limits() {
    let current_fee_bps = 1;
    let new_fee_bps = 13;
    let fee_cap_bps = 3000;
    let fee_bump_bps = 10;
    let fee_rate_of_change_bps = 2500;

    // ERROR: Δ > bump
    assert!(Vault::check_fee_change_ok(
        current_fee_bps,
        new_fee_bps,
        fee_cap_bps,
        fee_bump_bps,
        fee_rate_of_change_bps
    )
    .is_err());
}

#[test]
fn test_zero_ok() {
    let current_fee_bps = 0;
    let new_fee_bps = 10;
    let fee_cap_bps = 3000;
    let fee_bump_bps = 10;
    let fee_rate_of_change_bps = 2500;

    // OK: Δ <= bump
    assert!(Vault::check_fee_change_ok(
        current_fee_bps,
        new_fee_bps,
        fee_cap_bps,
        fee_bump_bps,
        fee_rate_of_change_bps
    )
    .is_ok());
}

#[test]
fn test_zero_bad() {
    let current_fee_bps = 0;
    let new_fee_bps = 11;
    let fee_cap_bps = 3000;
    let fee_bump_bps = 10;
    let fee_rate_of_change_bps = 2500;

    // Error: Δ > bump
    assert!(Vault::check_fee_change_ok(
        current_fee_bps,
        new_fee_bps,
        fee_cap_bps,
        fee_bump_bps,
        fee_rate_of_change_bps
    )
    .is_err());
}

#[test]
fn test_no_difference() {
    let current_fee_bps = 100;
    let new_fee_bps = 100;
    let fee_cap_bps = 3000;
    let fee_bump_bps = 10;
    let fee_rate_of_change_bps = 2500;

    // OK: Δ <= bump
    assert!(Vault::check_fee_change_ok(
        current_fee_bps,
        new_fee_bps,
        fee_cap_bps,
        fee_bump_bps,
        fee_rate_of_change_bps
    )
    .is_ok());
}

#[test]
fn test_decrease() {
    let current_fee_bps = 100;
    let new_fee_bps = 0;
    let fee_cap_bps = 3000;
    let fee_bump_bps = 10;
    let fee_rate_of_change_bps = 2500;

    // OK: Δ <= bump
    assert!(Vault::check_fee_change_ok(
        current_fee_bps,
        new_fee_bps,
        fee_cap_bps,
        fee_bump_bps,
        fee_rate_of_change_bps
    )
    .is_ok());
}

#[test]
fn test_max_fee_values() {
    let max_fee_bps = MAX_FEE_BPS;

    let current_fee_bps = max_fee_bps - 1;
    let new_fee_bps = max_fee_bps;
    let fee_cap_bps = max_fee_bps;
    let fee_bump_bps = 10;
    let fee_rate_of_change_bps = 2500;

    assert!(Vault::check_fee_change_ok(
        current_fee_bps,
        new_fee_bps,
        fee_cap_bps,
        fee_bump_bps,
        fee_rate_of_change_bps
    )
    .is_ok());
}

#[test]
fn test_max_decrease() {
    let current_fee_bps = MAX_BPS;
    let new_fee_bps = 0;
    let fee_cap_bps = 3000;
    let fee_bump_bps = 10;
    let fee_rate_of_change_bps = 2500;

    assert!(Vault::check_fee_change_ok(
        current_fee_bps,
        new_fee_bps,
        fee_cap_bps,
        fee_bump_bps,
        fee_rate_of_change_bps
    )
    .is_ok());
}

#[test]
fn test_max_increase() {
    let current_fee_bps = 0;
    let new_fee_bps = u16::MAX;
    let fee_cap_bps = u16::MAX;
    let fee_bump_bps = 10;
    let fee_rate_of_change_bps = 2500;

    assert!(Vault::check_fee_change_ok(
        current_fee_bps,
        new_fee_bps,
        fee_cap_bps,
        fee_bump_bps,
        fee_rate_of_change_bps
    )
    .is_err());
}

#[test]
fn test_at_cap() {
    let current_fee_bps = 2999;
    let new_fee_bps = 3000;
    let fee_cap_bps = 3000;
    let fee_bump_bps = 10;
    let fee_rate_of_change_bps = 2500;

    assert!(Vault::check_fee_change_ok(
        current_fee_bps,
        new_fee_bps,
        fee_cap_bps,
        fee_bump_bps,
        fee_rate_of_change_bps
    )
    .is_ok());
}

#[test]
fn test_above_cap() {
    let current_fee_bps = 2999;
    let new_fee_bps = 3001;
    let fee_cap_bps = 3000;
    let fee_bump_bps = 10;
    let fee_rate_of_change_bps = 2500;

    assert!(Vault::check_fee_change_ok(
        current_fee_bps,
        new_fee_bps,
        fee_cap_bps,
        fee_bump_bps,
        fee_rate_of_change_bps
    )
    .is_err());
}

#[test]
fn test_delegation_too_small() {
    let mut vault = make_test_vault(0, 0, 0, 1000, 1000, DelegationState::default());
    assert_eq!(vault.delegate(0), Err(VaultError::VaultDelegationZero));
}

#[test]
fn test_mint_with_fee_zero_amount() {
    let mut vault = make_test_vault(0, 0, 0, 1000, 1000, DelegationState::default());
    assert_eq!(vault.mint_with_fee(0, 0), Err(VaultError::VaultMintZero));
}

#[test]
fn test_burn_with_fee_zero_amount() {
    let mut vault = make_test_vault(0, 0, 0, 1000, 1000, DelegationState::default());
    assert_eq!(vault.burn_with_fee(0), Err(VaultError::VaultBurnZero));
}

// ---------- REWARD FEE HELPERS ------------
fn apply_vrt_reward_fee(vault: &mut Vault, st_rewards: i64) -> (u64, u64) {
    // allow for negative rewards
    let new_st_supply = (vault.tokens_deposited() as i64 + st_rewards) as u64;

    let st_reward_fee = vault.calculate_st_reward_fee(new_st_supply).unwrap();

    vault.set_tokens_deposited(new_st_supply - st_reward_fee);
    let vrt_reward_fee = vault.calculate_vrt_mint_amount(st_reward_fee).unwrap();

    vault.set_tokens_deposited(new_st_supply);
    vault.increment_vrt_supply(vrt_reward_fee).unwrap();

    (new_st_supply, vrt_reward_fee)
}

fn check_fee(
    st_supply: u64,
    vrt_supply: u64,
    st_rewards: i64,
    reward_fee_bps: u16,
    max_delta_bps: u16,
) -> Result<(), VaultError> {
    let mut vault = Vault::new(
        new_key(),
        new_key(),
        new_key(),
        0,
        new_key(),
        0,
        0,
        reward_fee_bps, //10%
        0,
        0,
        0,
    )
    .unwrap();
    vault.set_tokens_deposited(st_supply);
    vault.set_vrt_supply(vrt_supply);

    let (_, vrt_reward_fee) = apply_vrt_reward_fee(&mut vault, st_rewards);

    return vault.check_reward_fee_effective_rate(
        st_rewards.max(0) as u64,
        vrt_reward_fee,
        max_delta_bps,
    );
}

// ---------- REWARD FEE TESTS ------------

#[test]
fn test_calculate_reward_fee_st() {
    let mut vault = Vault::new(
        new_key(),
        new_key(),
        new_key(),
        0,
        new_key(),
        0,
        0,
        1000, //10%
        0,
        0,
        0,
    )
    .unwrap();
    vault.set_tokens_deposited(0);

    let fee = vault.calculate_st_reward_fee(1000).unwrap();

    assert_eq!(fee, 100);
}

#[test]
fn test_calculate_negative_reward_ok() {
    let mut vault = Vault::new(
        new_key(),
        new_key(),
        new_key(),
        0,
        new_key(),
        0,
        0,
        1000, //10%
        0,
        0,
        0,
    )
    .unwrap();
    vault.set_tokens_deposited(1000);

    let fee = vault.calculate_st_reward_fee(0).unwrap();

    assert_eq!(fee, 0);
}

#[test]
fn test_calculate_end_result_reward_fee() {
    // This test should mimic the `update_vault_balance` vrt calculations
    const STARTING_ST_SUPPLY: u64 = 1000;
    const STARTING_VRT_SUPPLY: u64 = 1000;
    const ST_REWARDS: u64 = 1000;
    const REWARD_FEE_BPS: u16 = 1000; // 10%
    const EXPECTED_REWARD_VRT_FEE: u64 = 52;

    // fee calculated to 52
    // This is correct because our new ratio is 2000 / 1052 = 0.526
    // This ratio times the rewards of 1000 = 526
    // 10 % fee of those rewards = 52.6
    // So the fee should be 52

    let mut vault = Vault::new(
        new_key(),
        new_key(),
        new_key(),
        0,
        new_key(),
        0,
        0,
        REWARD_FEE_BPS, //10%
        0,
        0,
        0,
    )
    .unwrap();
    vault.set_tokens_deposited(STARTING_ST_SUPPLY);
    vault.set_vrt_supply(STARTING_VRT_SUPPLY);

    let (new_st_supply, vrt_reward_fee) = apply_vrt_reward_fee(&mut vault, ST_REWARDS as i64);

    assert_eq!(vrt_reward_fee, EXPECTED_REWARD_VRT_FEE);
    assert_eq!(vault.tokens_deposited(), new_st_supply);
    assert_eq!(
        vault.vrt_supply(),
        STARTING_VRT_SUPPLY + EXPECTED_REWARD_VRT_FEE
    );
}

#[test]
fn test_check_reward_fee_effective_rate_okay_amount() {
    let result = check_fee(1000, 1000, 1000, 1000, 60);
    assert_eq!(result, Ok(()));
}

#[test]
fn test_check_reward_fee_effective_rate_realistic_amount() {
    let result = check_fee(
        100_000_000_000_000,
        95_000_000_000_000,
        5_000_000_000,
        1000,
        50,
    );
    assert_eq!(result, Ok(()));
}

#[test]
fn test_check_fee_100_percent() {
    let result = check_fee(1000, 1000, 10000, 10_000, 50);
    assert_eq!(result, Ok(()));
}

#[test]
fn test_check_large_fee() {
    let result = check_fee(1000, 1000, 1000000000, 1000, 50);
    assert_eq!(result, Ok(()));
}

#[test]
fn test_check_negative_zero_rewards_ok() {
    let result = check_fee(1000, 1000, 0, 1000, 50);
    assert_eq!(result, Ok(()));
}

#[test]
fn test_check_zero_fee_okay() {
    let result = check_fee(1000, 1000, 1000, 0, 50);
    assert_eq!(result, Ok(()));
}

#[test]
fn test_check_reward_fee_effective_rate_large_delta() {
    let result = check_fee(100_000_000_000_000, 95_000_000_000_000, 50, 1000, 50);
    assert_eq!(result, Err(VaultError::VaultRewardFeeDeltaTooLarge));
}

#[test]
fn test_check_reward_fee_effective_rate_zero_rewards() {
    let result = check_fee(1000, 1000, 2, 1000, 50);
    assert_eq!(result, Err(VaultError::VaultRewardFeeIsZero));
}

#[test]
fn test_check_reward_fee_effective_rate_max_delta_bps_too_large() {
    let result = check_fee(10000, 10000, 1000, 1000, MAX_FEE_BPS + 1);
    assert_eq!(result, Err(VaultError::VaultFeeCapExceeded));
}

#[test]
fn test_initialize_vault_override_deposit_fee_bps() {
    // Create a basic vault
    let mut vault = Vault::new(
        new_key(),
        new_key(),
        new_key(),
        0,
        new_key(),
        0,
        0,
        0,
        0,
        0,
        0,
    )
    .unwrap();

    // Create account info for tests
    let key = new_key();
    let owner = new_key();
    let data: Vec<u8> = vec![0; 32];

    // Test 1: Non-signer account should fail
    let non_signer_account = AccountView {
        key,
        owner,
        is_signer: false,
        is_writable: true,
        data: data.clone(),
    };

    assert_eq!(
        vault.initialize_vault_override_deposit_fee_bps(100, &non_signer_account),
        Err(ProgramError::MissingRequiredSignature)
    );

    // Test 2: Fee exceeding MAX_FEE_BPS should fail
    let signer_account = AccountView {
        key,
        owner,
        is_signer: true,
        is_writable: true,
        data: data.clone(),
    };

    assert_eq!(
        vault.initialize_vault_override_deposit_fee_bps(MAX_FEE_BPS + 1, &signer_account),
        Err(ProgramError::InvalidArgument)
    );

    // Test 3: Valid parameters should succeed
    let valid_fee = 100;
    assert_eq!(
        vault.initialize_vault_override_deposit_fee_bps(valid_fee, &signer_account),
        Ok(())
    );
    assert_eq!(vault.deposit_fee_bps(), valid_fee);

    // Test 4: Maximum allowed fee should succeed
    assert_eq!(
        vault.initialize_vault_override_deposit_fee_bps(MAX_FEE_BPS, &signer_account),
        Ok(())
    );
    assert_eq!(vault.deposit_fee_bps(), MAX_FEE_BPS);
}
