use solana_program::pubkey::Pubkey;
use vault_core::address::Address;
use vault_core::config::Config;
use vault_core::error::{ProgramError, VaultError};
use vault_core::vault::Vault;
use vault_core::vault_staker_withdrawal_ticket::VaultStakerWithdrawalTicket;
use vault_core::withdrawal::{
    process_burn, process_burn_withdraw_ticket, process_burn_withdrawal_ticket, process_enqueue_withdrawal,
};

fn new_key() -> Address {
    Address::new(Pubkey::new_unique().to_bytes())
}

fn code(e: VaultError) -> ProgramError {
    ProgramError::Custom(e.code())
}

fn config(epoch_length: u64) -> Config {
    let mut config = Config::new(new_key(), new_key(), 255);
    config.epoch_length = epoch_length;
    config
}

fn funded_vault(tokens: u64, supply: u64, withdrawal_fee_bps: u16, program_fee_bps: u16) -> Vault {
    let mut vault =
        Vault::new(new_key(), new_key(), new_key(), 0, new_key(), 0, withdrawal_fee_bps, 0, program_fee_bps, 0, 0)
            .unwrap();
    vault.tokens_deposited = tokens;
    vault.vrt_supply = supply;
    vault
}

#[test]
fn test_enqueue_withdrawal_creates_ticket() {
    let program_id = new_key();
    let vault_key = new_key();
    let base = new_key();
    let staker = new_key();
    let (ticket_key, bump, _) = VaultStakerWithdrawalTicket::find_program_address(&program_id, &vault_key, &base).unwrap();
    let mut vault = funded_vault(1000, 1000, 0, 0);

    let w = process_enqueue_withdrawal(
        &program_id, &config(100), &vault_key, &mut vault, &ticket_key, &staker, &base, None, 50, 100,
    )
    .unwrap();
    assert_eq!(w.ticket, VaultStakerWithdrawalTicket::new(vault_key, staker, base, 100, 50, bump));
    assert_eq!(w.signer_seeds.len(), 4);
    assert_eq!(w.signer_seeds[3], vec![bump]);
    assert_eq!(vault.vrt_enqueued_for_cooldown_amount, 100);
}

#[test]
fn test_enqueue_withdrawal_refusals() {
    let program_id = new_key();
    let vault_key = new_key();
    let base = new_key();
    let staker = new_key();
    let (ticket_key, _, _) = VaultStakerWithdrawalTicket::find_program_address(&program_id, &vault_key, &base).unwrap();
    let cfg = config(100);

    let mut vault = funded_vault(1000, 1000, 0, 0);
    let r = process_enqueue_withdrawal(&program_id, &cfg, &vault_key, &mut vault, &ticket_key, &staker, &base, None, 50, 0);
    assert_eq!(r.unwrap_err(), code(VaultError::VaultEnqueueWithdrawalAmountZero));

    let wrong_key = new_key();
    let r = process_enqueue_withdrawal(&program_id, &cfg, &vault_key, &mut vault, &wrong_key, &staker, &base, None, 50, 1);
    assert_eq!(r.unwrap_err(), ProgramError::InvalidAccountData);

    // the vault was last updated in epoch 0, and it is now epoch 1
    let r = process_enqueue_withdrawal(&program_id, &cfg, &vault_key, &mut vault, &ticket_key, &staker, &base, None, 150, 1);
    assert_eq!(r.unwrap_err(), code(VaultError::VaultUpdateNeeded));

    vault.is_paused = true;
    let r = process_enqueue_withdrawal(&program_id, &cfg, &vault_key, &mut vault, &ticket_key, &staker, &base, None, 50, 1);
    assert_eq!(r.unwrap_err(), code(VaultError::VaultIsPaused));

    let mut vault = funded_vault(1000, 1000, 0, 0);
    vault.mint_burn_admin = new_key();
    let r = process_enqueue_withdrawal(&program_id, &cfg, &vault_key, &mut vault, &ticket_key, &staker, &base, None, 50, 1);
    assert_eq!(r.unwrap_err(), code(VaultError::VaultMintBurnAdminInvalid));

    let mut vault = funded_vault(1000, 1000, 0, 0);
    vault.vrt_enqueued_for_cooldown_amount = u64::MAX;
    let r = process_enqueue_withdrawal(&program_id, &cfg, &vault_key, &mut vault, &ticket_key, &staker, &base, None, 50, 1);
    assert_eq!(r.unwrap_err(), code(VaultError::VaultOverflow));
    assert_eq!(vault.vrt_enqueued_for_cooldown_amount, u64::MAX);
}

fn ready_ticket(vault_key: Address, staker: Address, vrt_amount: u64) -> VaultStakerWithdrawalTicket {
    VaultStakerWithdrawalTicket::new(vault_key, staker, new_key(), vrt_amount, 0, 0)
}

#[test]
fn test_burn_withdrawal_ticket_pays_out() {
    let program_id = new_key();
    let vault_key = new_key();
    let staker = new_key();
    let mut vault = funded_vault(1000, 1000, 100, 100);
    vault.vrt_ready_to_claim_amount = 100;
    vault.last_full_state_update_slot = 250;
    let ticket = ready_ticket(vault_key, staker, 100);
    let vrt_mint = vault.vrt_mint;

    let p = process_burn_withdrawal_ticket(&program_id, &config(100), &vault_key, &mut vault, &ticket, &staker, &vrt_mint, None, 250)
        .unwrap();
    // 1% program fee and 1% vault fee, rounded up; 98 VRT burned for 98 tokens
    assert_eq!(p.summary.program_fee_amount, 1);
    assert_eq!(p.summary.vault_fee_amount, 1);
    assert_eq!(p.summary.burn_amount, 98);
    assert_eq!(p.summary.out_amount, 98);
    assert_eq!(vault.vrt_supply, 902);
    assert_eq!(vault.tokens_deposited, 902);
    assert_eq!(vault.vrt_ready_to_claim_amount, 0);
    assert_eq!(p.ticket_signer_seeds.len(), 4);
    assert_eq!(p.vault_signer_seeds.len(), 3);
}

#[test]
fn test_burn_withdrawal_ticket_refusals() {
    let program_id = new_key();
    let vault_key = new_key();
    let staker = new_key();
    let cfg = config(100);
    let mut vault = funded_vault(1000, 1000, 0, 0);
    vault.vrt_ready_to_claim_amount = 100;
    vault.last_full_state_update_slot = 250;
    let vrt_mint = vault.vrt_mint;
    let ticket = ready_ticket(vault_key, staker, 100);

    let other = new_key();
    let r = process_burn_withdrawal_ticket(&program_id, &cfg, &vault_key, &mut vault, &ticket, &other, &vrt_mint, None, 250);
    assert_eq!(r.unwrap_err(), code(VaultError::VaultStakerWithdrawalTicketInvalidStaker));

    let r = process_burn_withdrawal_ticket(&program_id, &cfg, &vault_key, &mut vault, &ticket, &staker, &other, None, 250);
    assert_eq!(r.unwrap_err(), ProgramError::InvalidAccountData);

    // unstaked in epoch 0: not withdrawable in epoch 1
    let mut early = vault;
    early.last_full_state_update_slot = 150;
    let r = process_burn_withdrawal_ticket(&program_id, &cfg, &vault_key, &mut early, &ticket, &staker, &vrt_mint, None, 150);
    assert_eq!(r.unwrap_err(), code(VaultError::VaultStakerWithdrawalTicketNotWithdrawable));

    // more VRT in the ticket than is ready to claim
    let big = ready_ticket(vault_key, staker, 200);
    let before = vault;
    let r = process_burn_withdrawal_ticket(&program_id, &cfg, &vault_key, &mut vault, &big, &staker, &vrt_mint, None, 250);
    assert_eq!(r.unwrap_err(), code(VaultError::VaultUnderflow));
    assert_eq!(vault, before);
}

#[test]
fn test_burn_with_slippage() {
    let program_id = new_key();
    let cfg = config(100);
    let mut vault = funded_vault(1000, 1000, 0, 0);
    let vrt_mint = vault.vrt_mint;
    let r = process_burn(&program_id, &cfg, &mut vault, &vrt_mint, None, 0, 100, 101);
    assert_eq!(r.unwrap_err(), code(VaultError::SlippageError));
    assert_eq!(vault.vrt_supply, 1000);

    let p = process_burn(&program_id, &cfg, &mut vault, &vrt_mint, None, 0, 100, 100).unwrap();
    assert_eq!(p.summary.out_amount, 100);
    assert_eq!(vault.vrt_supply, 900);
    assert_eq!(vault.tokens_deposited, 900);
}

#[test]
fn test_burn_withdraw_ticket_amounts() {
    let vault = funded_vault(1000, 1000, 0, 0);
    // a gain of 10, of which only 5 is unstaked and unreserved
    assert_eq!(process_burn_withdraw_ticket(&vault, 100, 110, 100, 800, 195), Ok((105, 100)));
    // no gain: the redemption amount is paid
    assert_eq!(process_burn_withdraw_ticket(&vault, 100, 90, 100, 800, 195), Ok((90, 90)));
    // more delegated than deposited
    assert_eq!(process_burn_withdraw_ticket(&vault, 100, 110, 100, 1001, 0), Err(ProgramError::InsufficientFunds));
}
