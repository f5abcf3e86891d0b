use solana_program::pubkey::Pubkey;
use vault_core::account::AccountView;
use vault_core::address::Address;
use vault_core::config::{Config, DEFAULT_FEES_CAP_BPS};
use vault_core::error::{ProgramError, VaultError};
use vault_core::initialize::{process_initialize_config, process_initialize_vault};
use vault_core::vault::Vault;
use vault_core::MAX_FEE_BPS;

fn new_key() -> Address {
    Address::new(Pubkey::new_unique().to_bytes())
}

fn code(e: VaultError) -> ProgramError {
    ProgramError::Custom(e.code())
}

fn signer(key: Address) -> AccountView {
    AccountView { key, owner: Address::default(), is_signer: true, is_writable: false, data: vec![] }
}

#[test]
fn test_initialize_config() {
    let program_id = new_key();
    let admin = new_key();
    let restaking = new_key();
    let (config_key, bump, _) = Config::find_program_address(&program_id).unwrap();
    let (config, seeds) = process_initialize_config(&program_id, &config_key, &admin, &restaking, 100).unwrap();
    assert_eq!(config, Config::new(admin, restaking, bump));
    assert_eq!(seeds, vec![b"config".to_vec(), vec![bump]]);

    assert_eq!(
        process_initialize_config(&program_id, &new_key(), &admin, &restaking, 100).unwrap_err(),
        ProgramError::InvalidAccountData
    );
    assert_eq!(
        process_initialize_config(&program_id, &config_key, &admin, &restaking, MAX_FEE_BPS + 1).unwrap_err(),
        ProgramError::InvalidArgument
    );
}

#[test]
fn test_initialize_vault_seeds_the_supply() {
    let program_id = new_key();
    let base = signer(new_key());
    let (vault_key, bump, _) = Vault::find_program_address(&program_id, &base.key).unwrap();
    let mut config = Config::new(new_key(), new_key(), 255);
    config.num_vaults = 7;
    let (vrt_mint, st_mint, admin) = (new_key(), new_key(), new_key());

    let iv = process_initialize_vault(&program_id, &mut config, &vault_key, &vrt_mint, &st_mint, &admin, &base, 100, 200, 300, 10, 10_000, 42)
        .unwrap();
    let v = iv.vault;
    assert_eq!(v.vrt_supply(), 10_000);
    assert_eq!(v.tokens_deposited(), 10_000);
    assert_eq!(v.deposit_fee_bps(), 100);
    assert_eq!(v.withdrawal_fee_bps(), 200);
    assert_eq!(v.reward_fee_bps(), 300);
    assert_eq!(v.program_fee_bps(), 10);
    assert_eq!(v.vault_index(), 7);
    assert_eq!(v.bump, bump);
    assert_eq!(v.last_full_state_update_slot(), 42);
    assert_eq!(v.admin, admin);
    assert_eq!(config.num_vaults, 8);
    assert_eq!(iv.signer_seeds, vec![b"vault".to_vec(), base.key.to_vec(), vec![bump]]);
}

#[test]
fn test_initialize_vault_refusals() {
    let program_id = new_key();
    let base = signer(new_key());
    let (vault_key, _, _) = Vault::find_program_address(&program_id, &base.key).unwrap();
    let mut config = Config::new(new_key(), new_key(), 255);
    let before = config;
    let k = new_key();

    let r = process_initialize_vault(&program_id, &mut config, &vault_key, &k, &k, &k, &base, 0, 0, 0, 0, 0, 0);
    assert_eq!(r.unwrap_err(), ProgramError::InvalidArgument);

    let r = process_initialize_vault(&program_id, &mut config, &new_key(), &k, &k, &k, &base, 0, 0, 0, 0, 1, 0);
    assert_eq!(r.unwrap_err(), ProgramError::InvalidAccountData);

    let r = process_initialize_vault(&program_id, &mut config, &vault_key, &k, &k, &k, &base, DEFAULT_FEES_CAP_BPS + 1, 0, 0, 0, 1, 0);
    assert_eq!(r.unwrap_err(), code(VaultError::VaultFeeCapExceeded));

    let mut not_signing = base.clone();
    not_signing.is_signer = false;
    let r = process_initialize_vault(&program_id, &mut config, &vault_key, &k, &k, &k, &not_signing, 0, 0, 0, 0, 1, 0);
    assert_eq!(r.unwrap_err(), ProgramError::MissingRequiredSignature);

    let mut full = Config::new(new_key(), new_key(), 255);
    full.num_vaults = u64::MAX;
    let r = process_initialize_vault(&program_id, &mut full, &vault_key, &k, &k, &k, &base, 0, 0, 0, 0, 1, 0);
    assert_eq!(r.unwrap_err(), code(VaultError::VaultOverflow));
    assert_eq!(full.num_vaults, u64::MAX);
    assert_eq!(config, before);
}
