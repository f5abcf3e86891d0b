use solana_program::pubkey::Pubkey;
use vault_core::account::AccountView;
use vault_core::address::Address;
use vault_core::config::Config;
use vault_core::delegation_state::DelegationState;
use vault_core::error::{ProgramError, VaultError};
use vault_core::instructions::{
    process_add_delegation, process_change_withdrawal_ticket_owner, process_cooldown_delegation,
    process_cooldown_vault_ncn_slasher_ticket, process_cooldown_vault_ncn_ticket, process_delegate_token_account,
    process_initialize_vault_delegation_list, process_initialize_vault_ncn_slasher_operator_ticket, AllocationStep,
};
use vault_core::slot_toggle::SlotToggle;
use vault_core::vault::Vault;
use vault_core::vault_delegation_list::{VaultDelegationList, VAULT_DELEGATION_LIST_DISCRIMINATOR};
use vault_core::vault_ncn_slasher_operator_ticket::VaultNcnSlasherOperatorTicket;
use vault_core::vault_ncn_slasher_ticket::VaultNcnSlasherTicket;
use vault_core::vault_ncn_ticket::VaultNcnTicket;
use vault_core::vault_operator_delegation::VaultOperatorDelegation;
use vault_core::vault_staker_withdrawal_ticket::VaultStakerWithdrawalTicket;

fn new_key() -> Address {
    Address::new(Pubkey::new_unique().to_bytes())
}

fn code(e: VaultError) -> ProgramError {
    ProgramError::Custom(e.code())
}

fn config(epoch_length: u64) -> Config {
    let mut config = Config::new(new_key(), new_key(), 255);
    config.epoch_length = epoch_length;
    config
}

fn funded_vault(tokens: u64, supply: u64) -> Vault {
    let mut vault = Vault::new(new_key(), new_key(), new_key(), 0, new_key(), 0, 0, 0, 0, 0, 0).unwrap();
    vault.tokens_deposited = tokens;
    vault.vrt_supply = supply;
    vault
}

#[test]
fn test_add_and_cool_down_delegation() {
    let cfg = config(100);
    let mut vault = funded_vault(1000, 1000);
    let admin = vault.delegation_admin;
    let mut d = VaultOperatorDelegation::new(new_key(), new_key(), 0, 0);

    process_add_delegation(&cfg, &mut vault, &mut d, &admin, 10, 600).unwrap();
    assert_eq!(vault.delegation_state, DelegationState::new(600, 0, 0));
    assert_eq!(d.delegation_state, DelegationState::new(600, 0, 0));

    // only 400 tokens are left undelegated
    assert_eq!(process_add_delegation(&cfg, &mut vault, &mut d, &admin, 10, 401), Err(code(VaultError::VaultInsufficientFunds)));
    assert_eq!(process_add_delegation(&cfg, &mut vault, &mut d, &new_key(), 10, 1), Err(code(VaultError::VaultDelegationAdminInvalid)));
    assert_eq!(process_add_delegation(&cfg, &mut vault, &mut d, &admin, 150, 1), Err(code(VaultError::VaultUpdateNeeded)));

    process_cooldown_delegation(&cfg, &mut vault, &mut d, &admin, 10, 100).unwrap();
    assert_eq!(vault.delegation_state, DelegationState::new(500, 100, 0));
    assert_eq!(d.delegation_state, DelegationState::new(500, 100, 0));
    assert_eq!(process_cooldown_delegation(&cfg, &mut vault, &mut d, &admin, 10, 0), Err(code(VaultError::VaultCooldownZero)));
    assert_eq!(process_cooldown_delegation(&cfg, &mut vault, &mut d, &admin, 10, 501), Err(code(VaultError::VaultSecurityUnderflow)));
    vault.is_paused = true;
    assert_eq!(process_cooldown_delegation(&cfg, &mut vault, &mut d, &admin, 10, 1), Err(code(VaultError::VaultIsPaused)));
}

#[test]
fn test_cooldown_tickets() {
    let cfg = config(100);
    let vault = funded_vault(1000, 1000);
    let mut ticket = VaultNcnTicket::new(new_key(), new_key(), 0, 0, 0);
    // added in epoch 0, active from epoch 2
    ticket.state = SlotToggle { slot_added: 10, slot_removed: 0 };
    let mut vault = vault;
    vault.last_full_state_update_slot = 250;
    let ncn_admin = vault.ncn_admin;

    assert_eq!(
        process_cooldown_vault_ncn_ticket(&cfg, &vault, &mut ticket, &new_key(), 250),
        Err(code(VaultError::VaultNcnAdminInvalid))
    );
    process_cooldown_vault_ncn_ticket(&cfg, &vault, &mut ticket, &ncn_admin, 250).unwrap();
    assert_eq!(ticket.state, SlotToggle { slot_added: 10, slot_removed: 250 });
    // already cooling down
    assert_eq!(
        process_cooldown_vault_ncn_ticket(&cfg, &vault, &mut ticket, &ncn_admin, 250),
        Err(code(VaultError::VaultNcnTicketFailedCooldown))
    );

    let mut slasher_ticket = VaultNcnSlasherTicket::new(new_key(), new_key(), new_key(), 0, 0, 0);
    let slasher_admin = vault.slasher_admin;
    assert_eq!(
        process_cooldown_vault_ncn_slasher_ticket(&cfg, &vault, &mut slasher_ticket, &slasher_admin, 250),
        Err(code(VaultError::VaultNcnSlasherTicketFailedCooldown))
    );
    slasher_ticket.state = SlotToggle { slot_added: 10, slot_removed: 0 };
    process_cooldown_vault_ncn_slasher_ticket(&cfg, &vault, &mut slasher_ticket, &slasher_admin, 250).unwrap();
    assert_eq!(slasher_ticket.state.slot_removed, 250);
}

#[test]
fn test_change_withdrawal_ticket_owner() {
    let vault = funded_vault(1000, 1000);
    let (old_owner, new_owner) = (new_key(), new_key());
    let mut ticket = VaultStakerWithdrawalTicket::new(new_key(), old_owner, new_key(), 10, 0, 0);
    assert_eq!(
        process_change_withdrawal_ticket_owner(&vault, &mut ticket, &new_owner, &new_owner),
        Err(code(VaultError::VaultStakerWithdrawalTicketInvalidStaker))
    );
    process_change_withdrawal_ticket_owner(&vault, &mut ticket, &old_owner, &new_owner).unwrap();
    assert_eq!(ticket.staker, new_owner);
    let mut paused = vault;
    paused.is_paused = true;
    assert_eq!(
        process_change_withdrawal_ticket_owner(&paused, &mut ticket, &new_owner, &old_owner),
        Err(code(VaultError::VaultIsPaused))
    );
}

#[test]
fn test_initialize_vault_ncn_slasher_operator_ticket() {
    let program_id = new_key();
    let cfg = config(100);
    let (vault, ncn, slasher, operator) = (new_key(), new_key(), new_key(), new_key());
    let (key, bump, _) =
        VaultNcnSlasherOperatorTicket::find_program_address(&program_id, &vault, &ncn, &slasher, &operator, 3).unwrap();
    let (ticket, seeds) =
        process_initialize_vault_ncn_slasher_operator_ticket(&program_id, &cfg, &vault, &ncn, &slasher, &operator, &key, 350).unwrap();
    assert_eq!(ticket, VaultNcnSlasherOperatorTicket::new(vault, ncn, slasher, operator, 3, bump));
    assert_eq!(seeds.len(), 7);
    assert_eq!(seeds[6], vec![bump]);
    // in epoch 4 the ticket lives elsewhere
    assert_eq!(
        process_initialize_vault_ncn_slasher_operator_ticket(&program_id, &cfg, &vault, &ncn, &slasher, &operator, &key, 450).unwrap_err(),
        ProgramError::InvalidAccountData
    );
}

#[test]
fn test_delegate_token_account() {
    let program_id = new_key();
    let vault = funded_vault(1000, 1000);
    let admin = vault.delegate_asset_admin;
    let (mint, token_program) = (new_key(), new_key());
    let seeds = process_delegate_token_account(&program_id, &vault, &admin, &mint, &token_program, &token_program, 10, 10).unwrap();
    let (_, bump, _) = Vault::find_program_address(&program_id, &vault.base).unwrap();
    assert_eq!(seeds[2], vec![bump]);

    let r = process_delegate_token_account(&program_id, &vault, &admin, &vault.supported_mint, &token_program, &token_program, 10, 10);
    assert_eq!(r.unwrap_err(), ProgramError::InvalidAccountData);
    let r = process_delegate_token_account(&program_id, &vault, &admin, &mint, &token_program, &new_key(), 10, 10);
    assert_eq!(r.unwrap_err(), ProgramError::InvalidAccountData);
    let r = process_delegate_token_account(&program_id, &vault, &new_key(), &mint, &token_program, &token_program, 10, 10);
    assert_eq!(r.unwrap_err(), code(VaultError::VaultDelegateAssetAdminInvalid));
    let r = process_delegate_token_account(&program_id, &vault, &admin, &mint, &token_program, &token_program, 10, 11);
    assert_eq!(r.unwrap_err(), ProgramError::InvalidInstructionData);
}

#[test]
fn test_delegation_list_allocation_in_steps() {
    let program_id = new_key();
    let vault = new_key();
    let (key, _, _) = VaultDelegationList::find_program_address(&program_id, &vault).unwrap();
    let mut list = AccountView { key, owner: Address::default(), is_signer: false, is_writable: true, data: vec![] };

    let a = process_initialize_vault_delegation_list(&program_id, &vault, &list, 25_000, 10_240).unwrap();
    assert_eq!(a.step, AllocationStep::Create(10_240));
    assert!(!a.initialize);

    list.owner = program_id;
    list.data = vec![0; 20_480];
    let a = process_initialize_vault_delegation_list(&program_id, &vault, &list, 25_000, 10_240).unwrap();
    assert_eq!(a.step, AllocationStep::Resize(25_000));
    assert!(a.initialize);

    list.data[0] = VAULT_DELEGATION_LIST_DISCRIMINATOR;
    let r = process_initialize_vault_delegation_list(&program_id, &vault, &list, 25_000, 10_240);
    assert_eq!(r.unwrap_err(), ProgramError::AccountAlreadyInitialized);

    list.data[0] = 0;
    list.owner = new_key();
    let r = process_initialize_vault_delegation_list(&program_id, &vault, &list, 25_000, 10_240);
    assert_eq!(r.unwrap_err(), ProgramError::InvalidAccountOwner);
}
