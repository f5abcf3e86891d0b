use solana_program::pubkey::Pubkey;
use vault_core::address::Address;
use vault_core::config::CONFIG_DISCRIMINATOR;
use vault_core::error::ProgramError;
use vault_core::harvest::{
    harvest_authority, process_harvest_lamports, process_harvest_tokens, HarvestAuthority, HarvestedAccount,
};
use vault_core::vault::{Vault, VAULT_DISCRIMINATOR};
use vault_core::vault_staker_withdrawal_ticket::VAULT_STAKER_WITHDRAWAL_TICKET_DISCRIMINATOR;

fn new_key() -> Address {
    Address::new(Pubkey::new_unique().to_bytes())
}

#[test]
fn test_harvest_authority() {
    let admin = new_key();
    assert_eq!(harvest_authority(CONFIG_DISCRIMINATOR, &admin, &admin), Ok(HarvestAuthority::Config));
    assert_eq!(harvest_authority(VAULT_DISCRIMINATOR, &admin, &admin), Ok(HarvestAuthority::Vault));
    assert_eq!(harvest_authority(VAULT_DISCRIMINATOR, &admin, &new_key()), Err(ProgramError::InvalidAccountData));
    assert_eq!(harvest_authority(9, &admin, &admin), Err(ProgramError::InvalidAccountData));
}

#[test]
fn test_harvest_lamports_above_rent() {
    let program_id = new_key();
    let d = VAULT_STAKER_WITHDRAWAL_TICKET_DISCRIMINATOR;
    assert_eq!(process_harvest_lamports(&program_id, &program_id, HarvestAuthority::Vault, d, 5000, 2000, 100), Ok((2000, 3100)));
    assert_eq!(
        process_harvest_lamports(&program_id, &new_key(), HarvestAuthority::Vault, d, 5000, 2000, 100),
        Err(ProgramError::InvalidAccountData)
    );
    assert_eq!(
        process_harvest_lamports(&program_id, &program_id, HarvestAuthority::Config, d, 5000, 2000, 100),
        Err(ProgramError::InvalidAccountData)
    );
    assert_eq!(
        process_harvest_lamports(&program_id, &program_id, HarvestAuthority::Vault, CONFIG_DISCRIMINATOR, 5000, 2000, 100),
        Err(ProgramError::InvalidAccountData)
    );
    // the vault itself is not harvested of lamports
    assert_eq!(
        process_harvest_lamports(&program_id, &program_id, HarvestAuthority::Vault, VAULT_DISCRIMINATOR, 5000, 2000, 100),
        Err(ProgramError::InvalidAccountData)
    );
    assert_eq!(
        process_harvest_lamports(&program_id, &program_id, HarvestAuthority::Vault, d, 1000, 2000, 100),
        Err(ProgramError::InsufficientFunds)
    );
    assert_eq!(
        process_harvest_lamports(&program_id, &program_id, HarvestAuthority::Vault, d, 5000, 2000, u64::MAX),
        Err(ProgramError::ArithmeticOverflow)
    );
}

#[test]
fn test_harvest_tokens_from_vault() {
    let program_id = new_key();
    let vault = Vault::new(new_key(), new_key(), new_key(), 0, new_key(), 0, 0, 0, 0, 0, 0).unwrap();
    let account = HarvestedAccount::Vault(vault);

    // never the supported mint
    let r = process_harvest_tokens(&program_id, &program_id, HarvestAuthority::Vault, &account, &vault.supported_mint, 10, 5);
    assert_eq!(r.unwrap_err(), ProgramError::InvalidAccountData);

    let mint = new_key();
    let r = process_harvest_tokens(&program_id, &program_id, HarvestAuthority::Config, &account, &mint, 10, 5);
    assert_eq!(r.unwrap_err(), ProgramError::InvalidAccountData);

    let r = process_harvest_tokens(&program_id, &program_id, HarvestAuthority::Vault, &account, &mint, 10, 11);
    assert_eq!(r.unwrap_err(), ProgramError::InsufficientFunds);

    let (_, bump, _) = Vault::find_program_address(&program_id, &vault.base).unwrap();
    let plan = process_harvest_tokens(&program_id, &program_id, HarvestAuthority::Vault, &account, &mint, 10, 5).unwrap();
    assert_eq!(plan.signer_seeds, vec![b"vault".to_vec(), vault.base.to_vec(), vec![bump]]);
    assert!(!plan.close_token_account);

    let plan = process_harvest_tokens(&program_id, &program_id, HarvestAuthority::Vault, &account, &mint, 10, 10).unwrap();
    assert!(plan.close_token_account);
}

#[test]
fn test_harvest_tokens_from_config() {
    let program_id = new_key();
    let mint = new_key();
    let plan =
        process_harvest_tokens(&program_id, &program_id, HarvestAuthority::Config, &HarvestedAccount::Config, &mint, 3, 1).unwrap();
    assert_eq!(plan.signer_seeds.len(), 2);
    assert_eq!(plan.signer_seeds[0], b"config".to_vec());
    let r = process_harvest_tokens(&program_id, &program_id, HarvestAuthority::Config, &HarvestedAccount::Other, &mint, 3, 1);
    assert_eq!(r.unwrap_err(), ProgramError::InvalidAccountData);
}
