//! Creating the program's config and its vaults.
//!
//! A new vault is seeded with an initial deposit whose VRT goes to the burn vault, so
//! that the VRT supply never returns to zero. The functions work on copies and write back
//! only when they succeed, as the runtime discards the writes of a failed instruction.
use vstd::prelude::*;
use crate::account::{AccountView, found_key};
use crate::address::{Address, found_program_address};
use crate::config::{Config, config_seeds, DEFAULT_SLOTS_PER_EPOCH, DEFAULT_FEES_CAP_BPS, DEFAULT_FEE_RATE_OF_CHANGE_BPS, DEFAULT_FEE_BUMP_BPS};
use crate::error::{ProgramError, VaultError, program_error_of};
use crate::vault::{Vault, vault_seeds, is_new_vault};
use crate::{MAX_BPS, MAX_FEE_BPS};

verus! {

/// Appends the bump seed to a list of seeds.
fn with_bump(seeds: Vec<Vec<u8>>, bump: u8) -> (r: Vec<Vec<u8>>)
    ensures
        r.deep_view() == seeds.deep_view().push(seq![bump]),
{
    let mut r = seeds;
    let ghost before = r.deep_view();
    let mut b: Vec<u8> = Vec::new();
    b.push(bump);
    proof {
        crate::address::lemma_bytes_deep_view(b);
    }
    r.push(b);
    assert(r.deep_view() =~= before.push(seq![bump]));
    r
}

/// Creates the config: its account must sit at the program address of the config, and
/// the program fee must be within the largest fee. Returns the config and the seeds its
/// account is created with.
pub fn process_initialize_config(
    program_id: &Address,
    config_key: &Address,
    admin: &Address,
    restaking_program: &Address,
    program_fee_bps: u16,
) -> (r: Result<(Config, Vec<Vec<u8>>), ProgramError>)
    ensures
        r is Ok <==> (found_key(config_seeds(), program_id@) == Some(config_key@) && program_fee_bps <= MAX_FEE_BPS),
        r matches Err(e) ==> (if found_key(config_seeds(), program_id@) != Some(config_key@) {
            e == ProgramError::InvalidAccountData
        } else {
            e == ProgramError::InvalidArgument
        }),
        r matches Ok((config, seeds)) ==> {
            &&& found_program_address(config_seeds(), program_id@) matches Some((_, bump))
            &&& config == (Config {
                admin: *admin,
                restaking_program: *restaking_program,
                epoch_length: DEFAULT_SLOTS_PER_EPOCH,
                num_vaults: 0,
                fee_cap_bps: DEFAULT_FEES_CAP_BPS,
                fee_rate_of_change_bps: DEFAULT_FEE_RATE_OF_CHANGE_BPS,
                fee_bump_bps: DEFAULT_FEE_BUMP_BPS,
                bump,
            })
            &&& seeds.deep_view() == config_seeds().push(seq![bump])
        },
{
    let (key, bump, seeds) = match Config::find_program_address(program_id) {
        Some(found) => found,
        None => {
            return Err(ProgramError::InvalidAccountData);
        },
    };
    if !key.equals(config_key) {
        return Err(ProgramError::InvalidAccountData);
    }
    if program_fee_bps > MAX_FEE_BPS {
        return Err(ProgramError::InvalidArgument);
    }
    let seeds = with_bump(seeds, bump);
    Ok((Config::new(*admin, *restaking_program, bump), seeds))
}

/// A new vault and the seeds its account is created with.
#[derive(Debug, Clone)]
pub struct InitializedVault {
    pub vault: Vault,
    /// The vault's seeds, bump seed last.
    pub signer_seeds: Vec<Vec<u8>>,
}

/// Why creating a vault is refused, or `None` when it is created.
pub open spec fn initialize_vault_error(
    program_id: Seq<u8>,
    config: Config,
    vault_key: Seq<u8>,
    base: AccountView,
    deposit_fee_bps: u16,
    withdrawal_fee_bps: u16,
    reward_fee_bps: u16,
    initialize_token_amount: u64,
) -> Option<ProgramError> {
    if initialize_token_amount == 0 {
        Some(ProgramError::InvalidArgument)
    } else if found_key(vault_seeds(base.key@), program_id) != Some(vault_key) {
        Some(ProgramError::InvalidAccountData)
    } else if deposit_fee_bps > config.fee_cap_bps || withdrawal_fee_bps > config.fee_cap_bps || reward_fee_bps > MAX_FEE_BPS {
        Some(program_error_of(VaultError::VaultFeeCapExceeded))
    } else if deposit_fee_bps > MAX_BPS || withdrawal_fee_bps > MAX_BPS {
        Some(program_error_of(VaultError::VaultFeeCapExceeded))
    } else if !base.is_signer {
        Some(ProgramError::MissingRequiredSignature)
    } else if config.num_vaults == u64::MAX {
        Some(program_error_of(VaultError::VaultOverflow))
    } else {
        None
    }
}

/// Creates a vault: the initial amount must not be zero, the vault must sit at its
/// program address for the base, and the deposit and withdrawal fees must be within the
/// config's cap, the reward fee within the largest fee. The vault takes the config's vault
/// count as its index, and is seeded with `initialize_token_amount` tokens minted one for
/// one into VRT free of fees; the config counts one more vault.
pub fn process_initialize_vault(
    program_id: &Address,
    config: &mut Config,
    vault_key: &Address,
    vrt_mint: &Address,
    supported_mint: &Address,
    admin: &Address,
    base: &AccountView,
    deposit_fee_bps: u16,
    withdrawal_fee_bps: u16,
    reward_fee_bps: u16,
    program_fee_bps: u16,
    initialize_token_amount: u64,
    slot: u64,
) -> (r: Result<InitializedVault, ProgramError>)
    ensures
        r matches Err(e) ==> initialize_vault_error(program_id@, *old(config), vault_key@, *base, deposit_fee_bps,
            withdrawal_fee_bps, reward_fee_bps, initialize_token_amount) == Some(e),
        r is Ok <==> initialize_vault_error(program_id@, *old(config), vault_key@, *base, deposit_fee_bps,
            withdrawal_fee_bps, reward_fee_bps, initialize_token_amount) is None,
        r is Err ==> *final(config) == *old(config),
        r matches Ok(iv) ==> {
            &&& found_program_address(vault_seeds(base.key@), program_id@) matches Some((_, bump))
            &&& is_new_vault(
                Vault { vrt_supply: 0, tokens_deposited: 0, ..iv.vault },
                *vrt_mint,
                *supported_mint,
                *admin,
                old(config).num_vaults,
                base.key,
                deposit_fee_bps,
                withdrawal_fee_bps,
                reward_fee_bps,
                program_fee_bps,
                bump,
                slot,
            )
            &&& iv.vault.vrt_supply == initialize_token_amount
            &&& iv.vault.tokens_deposited == initialize_token_amount
            &&& iv.signer_seeds.deep_view() == vault_seeds(base.key@).push(seq![bump])
            &&& *final(config) == (Config { num_vaults: (old(config).num_vaults + 1) as u64, ..*old(config) })
        },
        r matches Ok(iv) ==> iv.vault.deposit_fee_bps <= old(config).fee_cap_bps && iv.vault.withdrawal_fee_bps <= old(config).fee_cap_bps
            && iv.vault.reward_fee_bps <= MAX_FEE_BPS,
{
    if initialize_token_amount == 0 {
        return Err(ProgramError::InvalidArgument);
    }
    let (key, vault_bump, seeds) = match Vault::find_program_address(program_id, &base.key) {
        Some(found) => found,
        None => {
            return Err(ProgramError::InvalidAccountData);
        },
    };
    if !key.equals(vault_key) {
        return Err(ProgramError::InvalidAccountData);
    }
    if deposit_fee_bps > config.fee_cap_bps || withdrawal_fee_bps > config.fee_cap_bps || reward_fee_bps > MAX_FEE_BPS {
        return Err(ProgramError::from(VaultError::VaultFeeCapExceeded));
    }
    let mut vault = match Vault::new(
        *vrt_mint,
        *supported_mint,
        *admin,
        config.num_vaults,
        base.key,
        deposit_fee_bps,
        withdrawal_fee_bps,
        reward_fee_bps,
        program_fee_bps,
        vault_bump,
        slot,
    ) {
        Ok(v) => v,
        Err(e) => {
            return Err(ProgramError::from(e));
        },
    };
    match vault.initialize_vault_override_deposit_fee_bps(0, base) {
        Ok(()) => {},
        Err(e) => {
            return Err(e);
        },
    }
    let mint_summary = match vault.mint_with_fee(initialize_token_amount, initialize_token_amount) {
        Ok(s) => s,
        Err(e) => {
            return Err(ProgramError::from(e));
        },
    };
    if mint_summary.vrt_to_depositor != initialize_token_amount || mint_summary.vrt_to_fee_wallet != 0 {
        return Err(ProgramError::from(VaultError::VaultInitialAmountFailed));
    }
    match vault.initialize_vault_override_deposit_fee_bps(deposit_fee_bps, base) {
        Ok(()) => {},
        Err(e) => {
            return Err(e);
        },
    }
    match config.increment_num_vaults() {
        Ok(()) => {},
        Err(e) => {
            return Err(ProgramError::from(e));
        },
    }
    let signer_seeds = with_bump(seeds, vault_bump);
    Ok(InitializedVault { vault, signer_seeds })
}

/// A vault is only created with fees its config allows: a successful creation has a
/// deposit and a withdrawal fee within the config's fee cap and a reward fee within the
/// largest fee, seeds at least one token, and is signed by the base; a fee above its cap
/// is refused with `VaultFeeCapExceeded` once the amount and the address are right.
pub proof fn lemma_initialize_vault_respects_fee_caps(
    program_id: Seq<u8>,
    config: Config,
    vault_key: Seq<u8>,
    base: AccountView,
    deposit_fee_bps: u16,
    withdrawal_fee_bps: u16,
    reward_fee_bps: u16,
    initialize_token_amount: u64,
)
    ensures
        initialize_vault_error(program_id, config, vault_key, base, deposit_fee_bps, withdrawal_fee_bps, reward_fee_bps,
            initialize_token_amount) is None ==> {
            &&& deposit_fee_bps <= config.fee_cap_bps
            &&& withdrawal_fee_bps <= config.fee_cap_bps
            &&& reward_fee_bps <= MAX_FEE_BPS
            &&& initialize_token_amount > 0
            &&& base.is_signer
        },
        initialize_token_amount > 0 && found_key(vault_seeds(base.key@), program_id) == Some(vault_key)
            && (deposit_fee_bps > config.fee_cap_bps || withdrawal_fee_bps > config.fee_cap_bps || reward_fee_bps > MAX_FEE_BPS)
            ==> initialize_vault_error(program_id, config, vault_key, base, deposit_fee_bps, withdrawal_fee_bps, reward_fee_bps,
            initialize_token_amount) == Some(program_error_of(VaultError::VaultFeeCapExceeded)),
{
}

} // verus!
