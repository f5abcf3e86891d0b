//! Harvesting: taking the lamports above rent, or the tokens, that were sent to an account
//! of the program. The config's admin may harvest from the config; a vault's harvest
//! authority may harvest from the vault's own accounts; the vault's supported tokens can
//! never be harvested from the vault.
use vstd::prelude::*;
use crate::address::{Address, found_program_address};
use crate::config::{Config, CONFIG_DISCRIMINATOR, config_seeds};
use crate::error::ProgramError;
use crate::vault::{Vault, VAULT_DISCRIMINATOR, vault_seeds};
use crate::vault_ncn_slasher_operator_ticket::{VaultNcnSlasherOperatorTicket, VAULT_NCN_SLASHER_OPERATOR_TICKET_DISCRIMINATOR, vault_ncn_slasher_operator_ticket_seeds};
use crate::vault_ncn_slasher_ticket::{VaultNcnSlasherTicket, VAULT_NCN_SLASHER_TICKET_DISCRIMINATOR, vault_ncn_slasher_ticket_seeds};
use crate::vault_ncn_ticket::{VaultNcnTicket, VAULT_NCN_TICKET_DISCRIMINATOR, vault_ncn_ticket_seeds};
use crate::vault_operator_delegation::{VaultOperatorDelegation, VAULT_OPERATOR_DELEGATION_DISCRIMINATOR, vault_operator_delegation_seeds};
use crate::vault_staker_withdrawal_ticket::{VaultStakerWithdrawalTicket, VAULT_STAKER_WITHDRAWAL_TICKET_DISCRIMINATOR, vault_staker_withdrawal_ticket_seeds};
use crate::vault_update_state_tracker::{VaultUpdateStateTracker, VAULT_UPDATE_STATE_TRACKER_DISCRIMINATOR, vault_update_state_tracker_seeds};

verus! {

/// Whose authority a harvest is made under.
#[derive(Debug, Clone, Copy, PartialEq, Eq, Structural)]
pub enum HarvestAuthority {
    /// The config's admin signed.
    Config,
    /// The vault's harvest authority signed.
    Vault,
}

/// The account harvested from, decoded by its first byte.
#[derive(Debug, Clone, Copy)]
pub enum HarvestedAccount {
    Config,
    VaultNcnSlasherOperatorTicket(VaultNcnSlasherOperatorTicket),
    VaultNcnSlasherTicket(VaultNcnSlasherTicket),
    VaultNcnTicket(VaultNcnTicket),
    VaultOperatorDelegation(VaultOperatorDelegation),
    VaultStakerWithdrawalTicket(VaultStakerWithdrawalTicket),
    VaultUpdateStateTracker(VaultUpdateStateTracker),
    Vault(Vault),
    /// Any other first byte.
    Other,
}

/// Which authority an account may be harvested under, or `None` if under no authority.
pub open spec fn required_authority(a: HarvestedAccount) -> Option<HarvestAuthority> {
    match a {
        HarvestedAccount::Config => Some(HarvestAuthority::Config),
        HarvestedAccount::Other => None,
        _ => Some(HarvestAuthority::Vault),
    }
}

/// The seeds of the program address of a harvested account (`None` for another kind).
pub open spec fn harvested_seeds(a: HarvestedAccount) -> Option<Seq<Seq<u8>>> {
    match a {
        HarvestedAccount::Config => Some(config_seeds()),
        HarvestedAccount::VaultNcnSlasherOperatorTicket(t) => Some(
            vault_ncn_slasher_operator_ticket_seeds(t.vault@, t.ncn@, t.slasher@, t.operator@, t.epoch),
        ),
        HarvestedAccount::VaultNcnSlasherTicket(t) => Some(vault_ncn_slasher_ticket_seeds(t.vault@, t.ncn@, t.slasher@)),
        HarvestedAccount::VaultNcnTicket(t) => Some(vault_ncn_ticket_seeds(t.vault@, t.ncn@)),
        HarvestedAccount::VaultOperatorDelegation(d) => Some(vault_operator_delegation_seeds(d.vault@, d.operator@)),
        HarvestedAccount::VaultStakerWithdrawalTicket(t) => Some(vault_staker_withdrawal_ticket_seeds(t.vault@, t.base@)),
        HarvestedAccount::VaultUpdateStateTracker(t) => Some(vault_update_state_tracker_seeds(t.vault@, t.ncn_epoch)),
        HarvestedAccount::Vault(v) => Some(vault_seeds(v.base@)),
        HarvestedAccount::Other => None,
    }
}

/// The authority named by the account that vouches for the signer: the config (by its
/// first byte) with its admin, or a vault with its harvest authority. The named key must
/// be the signer's; any other account is refused.
pub fn harvest_authority(config_or_vault_discriminator: u8, named_authority: &Address, signer: &Address) -> (r: Result<HarvestAuthority, ProgramError>)
    ensures
        r is Ok <==> ((config_or_vault_discriminator == CONFIG_DISCRIMINATOR || config_or_vault_discriminator == VAULT_DISCRIMINATOR)
            && named_authority@ == signer@),
        r matches Ok(a) ==> (a == HarvestAuthority::Config <==> config_or_vault_discriminator == CONFIG_DISCRIMINATOR),
        r matches Err(e) ==> e == ProgramError::InvalidAccountData,
{
    if config_or_vault_discriminator == CONFIG_DISCRIMINATOR {
        if !named_authority.equals(signer) {
            return Err(ProgramError::InvalidAccountData);
        }
        Ok(HarvestAuthority::Config)
    } else if config_or_vault_discriminator == VAULT_DISCRIMINATOR {
        if !named_authority.equals(signer) {
            return Err(ProgramError::InvalidAccountData);
        }
        Ok(HarvestAuthority::Vault)
    } else {
        Err(ProgramError::InvalidAccountData)
    }
}

/// The kind of account a first byte names, for harvesting lamports: the config and the
/// accounts that belong to a vault (not the vault itself).
pub open spec fn lamports_harvestable(discriminator: u8, authority: HarvestAuthority) -> bool {
    if discriminator == CONFIG_DISCRIMINATOR {
        authority == HarvestAuthority::Config
    } else if discriminator == VAULT_NCN_SLASHER_OPERATOR_TICKET_DISCRIMINATOR || discriminator == VAULT_NCN_SLASHER_TICKET_DISCRIMINATOR
        || discriminator == VAULT_NCN_TICKET_DISCRIMINATOR || discriminator == VAULT_OPERATOR_DELEGATION_DISCRIMINATOR
        || discriminator == VAULT_STAKER_WITHDRAWAL_TICKET_DISCRIMINATOR || discriminator == VAULT_UPDATE_STATE_TRACKER_DISCRIMINATOR {
        authority == HarvestAuthority::Vault
    } else {
        false
    }
}

/// Harvests the lamports above rent from an account of the program: the account must be
/// owned by the program, the authority must match the kind of account, and what the
/// account holds above `rent_minimum` goes to the destination. Returns the new balances
/// of the account and of the destination.
pub fn process_harvest_lamports(
    program_id: &Address,
    program_account_owner: &Address,
    authority: HarvestAuthority,
    program_account_discriminator: u8,
    program_account_lamports: u64,
    rent_minimum: u64,
    destination_lamports: u64,
) -> (r: Result<(u64, u64), ProgramError>)
    ensures
        r matches Err(e) ==> (if program_account_owner@ != program_id@ {
            e == ProgramError::InvalidAccountData
        } else if !lamports_harvestable(program_account_discriminator, authority) {
            e == ProgramError::InvalidAccountData
        } else if program_account_lamports < rent_minimum {
            e == ProgramError::InsufficientFunds
        } else {
            e == ProgramError::ArithmeticOverflow
        }),
        r is Ok <==> (program_account_owner@ == program_id@ && lamports_harvestable(program_account_discriminator, authority)
            && program_account_lamports >= rent_minimum
            && destination_lamports + (program_account_lamports - rent_minimum) <= u64::MAX),
        r matches Ok((left, received)) ==> left == rent_minimum
            && received == destination_lamports + (program_account_lamports - rent_minimum),
{
    if !program_account_owner.equals(program_id) {
        return Err(ProgramError::InvalidAccountData);
    }
    let d = program_account_discriminator;
    if d == CONFIG_DISCRIMINATOR {
        if authority != HarvestAuthority::Config {
            return Err(ProgramError::InvalidAccountData);
        }
    } else if d == VAULT_NCN_SLASHER_OPERATOR_TICKET_DISCRIMINATOR || d == VAULT_NCN_SLASHER_TICKET_DISCRIMINATOR
        || d == VAULT_NCN_TICKET_DISCRIMINATOR || d == VAULT_OPERATOR_DELEGATION_DISCRIMINATOR
        || d == VAULT_STAKER_WITHDRAWAL_TICKET_DISCRIMINATOR || d == VAULT_UPDATE_STATE_TRACKER_DISCRIMINATOR {
        if authority != HarvestAuthority::Vault {
            return Err(ProgramError::InvalidAccountData);
        }
    } else {
        return Err(ProgramError::InvalidAccountData);
    }
    let amount_to_transfer = match program_account_lamports.checked_sub(rent_minimum) {
        Some(a) => a,
        None => {
            return Err(ProgramError::InsufficientFunds);
        },
    };
    let left = program_account_lamports - amount_to_transfer;
    let received = match destination_lamports.checked_add(amount_to_transfer) {
        Some(x) => x,
        None => {
            return Err(ProgramError::ArithmeticOverflow);
        },
    };
    Ok((left, received))
}

/// What a token harvest signs with and whether it empties the account.
#[derive(Debug, Clone)]
pub struct HarvestTokensPlan {
    /// The seeds, bump seed last, of the program account that owns the token account.
    pub signer_seeds: Vec<Vec<u8>>,
    /// Whether the token account is emptied, and so closed, by the transfer.
    pub close_token_account: bool,
}

/// Why a token harvest is refused, or `None` when it is made.
pub open spec fn harvest_tokens_error(
    program_id: Seq<u8>,
    program_account_owner: Seq<u8>,
    authority: HarvestAuthority,
    account: HarvestedAccount,
    mint: Seq<u8>,
    tokens_in_account: int,
    amount: int,
) -> Option<ProgramError> {
    if program_account_owner != program_id {
        Some(ProgramError::InvalidAccountData)
    } else if required_authority(account) != Some(authority) {
        Some(ProgramError::InvalidAccountData)
    } else if account matches HarvestedAccount::Vault(v) && v.supported_mint@ == mint {
        Some(ProgramError::InvalidAccountData)
    } else if found_program_address(harvested_seeds(account).unwrap(), program_id) is None {
        Some(ProgramError::InvalidSeeds)
    } else if tokens_in_account < amount {
        Some(ProgramError::InsufficientFunds)
    } else {
        None
    }
}

/// Harvests `amount` tokens of `mint` from the token account of a program account: the
/// program account must be owned by the program and harvestable under the authority, and
/// a vault's supported mint is never harvested. The transfer is signed with the program
/// account's seeds; the token account is closed when the transfer empties it.
pub fn process_harvest_tokens(
    program_id: &Address,
    program_account_owner: &Address,
    authority: HarvestAuthority,
    account: &HarvestedAccount,
    mint: &Address,
    tokens_in_account: u64,
    amount: u64,
) -> (r: Result<HarvestTokensPlan, ProgramError>)
    ensures
        r matches Err(e) ==> harvest_tokens_error(program_id@, program_account_owner@, authority, *account, mint@,
            tokens_in_account as int, amount as int) == Some(e),
        r is Ok <==> harvest_tokens_error(program_id@, program_account_owner@, authority, *account, mint@,
            tokens_in_account as int, amount as int) is None,
        r matches Ok(plan) ==> {
            &&& found_program_address(harvested_seeds(*account).unwrap(), program_id@) matches Some((_, bump))
            &&& plan.signer_seeds.deep_view() == harvested_seeds(*account).unwrap().push(seq![bump])
            &&& plan.close_token_account == (amount == tokens_in_account)
        },
        r is Ok ==> program_account_owner@ == program_id@ && amount <= tokens_in_account
            && !(*account matches HarvestedAccount::Vault(v) && v.supported_mint@ == mint@),
{
    if !program_account_owner.equals(program_id) {
        return Err(ProgramError::InvalidAccountData);
    }
    let found = match account {
        HarvestedAccount::Config => {
            if authority != HarvestAuthority::Config {
                return Err(ProgramError::InvalidAccountData);
            }
            Config::find_program_address(program_id)
        },
        HarvestedAccount::VaultNcnSlasherOperatorTicket(t) => {
            if authority != HarvestAuthority::Vault {
                return Err(ProgramError::InvalidAccountData);
            }
            VaultNcnSlasherOperatorTicket::find_program_address(program_id, &t.vault, &t.ncn, &t.slasher, &t.operator, t.epoch)
        },
        HarvestedAccount::VaultNcnSlasherTicket(t) => {
            if authority != HarvestAuthority::Vault {
                return Err(ProgramError::InvalidAccountData);
            }
            VaultNcnSlasherTicket::find_program_address(program_id, &t.vault, &t.ncn, &t.slasher)
        },
        HarvestedAccount::VaultNcnTicket(t) => {
            if authority != HarvestAuthority::Vault {
                return Err(ProgramError::InvalidAccountData);
            }
            VaultNcnTicket::find_program_address(program_id, &t.vault, &t.ncn)
        },
        HarvestedAccount::VaultOperatorDelegation(d) => {
            if authority != HarvestAuthority::Vault {
                return Err(ProgramError::InvalidAccountData);
            }
            VaultOperatorDelegation::find_program_address(program_id, &d.vault, &d.operator)
        },
        HarvestedAccount::VaultStakerWithdrawalTicket(t) => {
            if authority != HarvestAuthority::Vault {
                return Err(ProgramError::InvalidAccountData);
            }
            VaultStakerWithdrawalTicket::find_program_address(program_id, &t.vault, &t.base)
        },
        HarvestedAccount::VaultUpdateStateTracker(t) => {
            if authority != HarvestAuthority::Vault {
                return Err(ProgramError::InvalidAccountData);
            }
            VaultUpdateStateTracker::find_program_address(program_id, &t.vault, t.ncn_epoch)
        },
        HarvestedAccount::Vault(v) => {
            if authority != HarvestAuthority::Vault {
                return Err(ProgramError::InvalidAccountData);
            }
            if v.supported_mint.equals(mint) {
                return Err(ProgramError::InvalidAccountData);
            }
            Vault::find_program_address(program_id, &v.base)
        },
        HarvestedAccount::Other => {
            return Err(ProgramError::InvalidAccountData);
        },
    };
    let (bump, mut seeds) = match found {
        Some((_, bump, seeds)) => (bump, seeds),
        None => {
            return Err(ProgramError::InvalidSeeds);
        },
    };
    let ghost before = seeds.deep_view();
    let mut bump_seed: Vec<u8> = Vec::new();
    bump_seed.push(bump);
    proof {
        crate::address::lemma_bytes_deep_view(bump_seed);
    }
    seeds.push(bump_seed);
    proof {
        assert(seeds.deep_view() =~= before.push(seq![bump]));
    }
    if tokens_in_account < amount {
        return Err(ProgramError::InsufficientFunds);
    }
    Ok(HarvestTokensPlan { signer_seeds: seeds, close_token_account: amount == tokens_in_account })
}

} // verus!
