//! The decisions of the vault's administrative instructions: delegating stake to an
//! operator and cooling it down, cooling down an NCN or slasher ticket, handing a
//! withdrawal ticket to a new owner, and opening a slasher's ticket for an operator.
//!
//! Each works on copies of the accounts it changes and writes them back only when it
//! succeeds, as the runtime discards the writes of a failed instruction.
use vstd::prelude::*;
use crate::account::found_key;
use crate::account::AccountView;
use crate::address::{Address, found_program_address, zero_key};
use crate::config::Config;
use crate::error::{ProgramError, VaultError, program_error_of};
use crate::slot_toggle::{SlotToggle, SlotToggleState, toggle_state, lemma_deactivate_stays_off};
use crate::vault::{Vault, delegate_outcome, vault_seeds};
use crate::loader::{load_mpl_metadata, metadata_seeds};
use crate::vault_delegation_list::{VaultDelegationList, VAULT_DELEGATION_LIST_DISCRIMINATOR, vault_delegation_list_seeds};
use crate::vault_ncn_slasher_operator_ticket::{VaultNcnSlasherOperatorTicket, vault_ncn_slasher_operator_ticket_seeds};
use crate::vault_ncn_slasher_ticket::VaultNcnSlasherTicket;
use crate::vault_ncn_ticket::VaultNcnTicket;
use crate::vault_operator_delegation::VaultOperatorDelegation;
use crate::vault_staker_withdrawal_ticket::VaultStakerWithdrawalTicket;

verus! {

/// Why an admin of the vault may not act at `slot`: the admin is not the one the vault
/// names, the epoch length is zero, or the vault needs an update.
pub open spec fn admin_gate_error(config: Config, vault: Vault, admin_ok: bool, admin_error: VaultError, slot: int) -> Option<ProgramError> {
    let el = config.epoch_length as int;
    if !admin_ok {
        Some(program_error_of(admin_error))
    } else if el == 0 {
        Some(program_error_of(VaultError::DivisionByZero))
    } else if (vault.last_full_state_update_slot as int) / el < slot / el {
        Some(program_error_of(VaultError::VaultUpdateNeeded))
    } else {
        None
    }
}

/// Checks the admin gate in order: admin, then the vault's update state.
fn check_admin_gate(config: &Config, vault: &Vault, admin_check: Result<(), VaultError>, slot: u64) -> (r: Result<(), ProgramError>)
    ensures
        r matches Err(e) ==> admin_gate_error(*config, *vault, admin_check is Ok, admin_check->Err_0, slot as int) == Some(e),
        r is Ok <==> admin_gate_error(*config, *vault, admin_check is Ok, admin_check->Err_0, slot as int) is None,
{
    match admin_check {
        Ok(()) => {},
        Err(e) => {
            return Err(ProgramError::from(e));
        },
    }
    vault.check_update_state_ok(slot, config.epoch_length)
}

/// Why delegating is refused, or `None` when it is made.
pub open spec fn add_delegation_error(
    config: Config,
    vault: Vault,
    d: VaultOperatorDelegation,
    delegation_admin: Seq<u8>,
    slot: int,
    amount: int,
) -> Option<ProgramError> {
    if admin_gate_error(config, vault, vault.delegation_admin@ == delegation_admin, VaultError::VaultDelegationAdminInvalid, slot) is Some {
        admin_gate_error(config, vault, vault.delegation_admin@ == delegation_admin, VaultError::VaultDelegationAdminInvalid, slot)
    } else if delegate_outcome(vault, amount) is Err {
        Some(program_error_of(delegate_outcome(vault, amount)->Err_0))
    } else if d.delegation_state.staked() + amount > u64::MAX {
        Some(program_error_of(VaultError::VaultSecurityOverflow))
    } else {
        None
    }
}

/// Delegates `amount` of the vault's tokens to an operator: the delegation admin must act
/// and the vault must be up to date. The vault and the operator's delegation both count
/// the amount as staked.
pub fn process_add_delegation(
    config: &Config,
    vault: &mut Vault,
    vault_operator_delegation: &mut VaultOperatorDelegation,
    delegation_admin: &Address,
    slot: u64,
    amount: u64,
) -> (r: Result<(), ProgramError>)
    ensures
        r matches Err(e) ==> add_delegation_error(*config, *old(vault), *old(vault_operator_delegation), delegation_admin@, slot as int,
            amount as int) == Some(e),
        r is Ok <==> add_delegation_error(*config, *old(vault), *old(vault_operator_delegation), delegation_admin@, slot as int,
            amount as int) is None,
        r is Ok ==> config.epoch_length > 0 && old(vault).delegation_admin@ == delegation_admin@
            && old(vault).last_full_state_update_slot / config.epoch_length >= slot / config.epoch_length,
        r is Err ==> *final(vault) == *old(vault) && *final(vault_operator_delegation) == *old(vault_operator_delegation),
        r is Ok ==> {
            &&& *final(vault) == (Vault { delegation_state: final(vault).delegation_state, ..*old(vault) })
            &&& final(vault).delegation_state.holds(
                (old(vault).delegation_state.staked() + amount) as u64,
                old(vault).delegation_state.enqueued(),
                old(vault).delegation_state.cooling(),
            )
            &&& *final(vault_operator_delegation) == (VaultOperatorDelegation {
                delegation_state: final(vault_operator_delegation).delegation_state,
                ..*old(vault_operator_delegation)
            })
            &&& final(vault_operator_delegation).delegation_state.holds(
                (old(vault_operator_delegation).delegation_state.staked() + amount) as u64,
                old(vault_operator_delegation).delegation_state.enqueued(),
                old(vault_operator_delegation).delegation_state.cooling(),
            )
        },
{
    match check_admin_gate(config, vault, vault.check_delegation_admin(delegation_admin), slot) {
        Ok(()) => {},
        Err(e) => {
            return Err(e);
        },
    }
    let mut vault2 = *vault;
    let mut delegation2 = *vault_operator_delegation;
    match vault2.delegate(amount) {
        Ok(()) => {},
        Err(e) => {
            return Err(ProgramError::from(e));
        },
    }
    match delegation2.delegation_state.delegate(amount) {
        Ok(()) => {},
        Err(e) => {
            return Err(ProgramError::from(e));
        },
    }
    *vault = vault2;
    *vault_operator_delegation = delegation2;
    Ok(())
}

/// Why cooling down a delegation is refused, or `None` when it is made.
pub open spec fn cooldown_delegation_error(
    config: Config,
    vault: Vault,
    d: VaultOperatorDelegation,
    delegation_admin: Seq<u8>,
    slot: int,
    amount: int,
) -> Option<ProgramError> {
    if admin_gate_error(config, vault, vault.delegation_admin@ == delegation_admin, VaultError::VaultDelegationAdminInvalid, slot) is Some {
        admin_gate_error(config, vault, vault.delegation_admin@ == delegation_admin, VaultError::VaultDelegationAdminInvalid, slot)
    } else if vault.is_paused {
        Some(program_error_of(VaultError::VaultIsPaused))
    } else if amount == 0 {
        Some(program_error_of(VaultError::VaultCooldownZero))
    } else if amount > d.delegation_state.staked() {
        Some(program_error_of(VaultError::VaultSecurityUnderflow))
    } else if d.delegation_state.enqueued() + amount > u64::MAX {
        Some(program_error_of(VaultError::VaultSecurityOverflow))
    } else if amount > vault.delegation_state.staked() {
        Some(program_error_of(VaultError::VaultSecurityUnderflow))
    } else if vault.delegation_state.enqueued() + amount > u64::MAX {
        Some(program_error_of(VaultError::VaultSecurityOverflow))
    } else {
        None
    }
}

/// Cools down `amount` of the stake delegated to an operator: the delegation admin must
/// act, the vault must be up to date and not paused. The amount moves from staked to
/// enqueued for cooldown in the operator's delegation and in the vault.
pub fn process_cooldown_delegation(
    config: &Config,
    vault: &mut Vault,
    vault_operator_delegation: &mut VaultOperatorDelegation,
    delegation_admin: &Address,
    slot: u64,
    amount: u64,
) -> (r: Result<(), ProgramError>)
    ensures
        r matches Err(e) ==> cooldown_delegation_error(*config, *old(vault), *old(vault_operator_delegation), delegation_admin@,
            slot as int, amount as int) == Some(e),
        r is Ok <==> cooldown_delegation_error(*config, *old(vault), *old(vault_operator_delegation), delegation_admin@, slot as int,
            amount as int) is None,
        r is Ok ==> config.epoch_length > 0 && old(vault).delegation_admin@ == delegation_admin@
            && old(vault).last_full_state_update_slot / config.epoch_length >= slot / config.epoch_length,
        r is Ok ==> !old(vault).is_paused && amount > 0,
        r is Err ==> *final(vault) == *old(vault) && *final(vault_operator_delegation) == *old(vault_operator_delegation),
        r is Ok ==> {
            &&& *final(vault) == (Vault { delegation_state: final(vault).delegation_state, ..*old(vault) })
            &&& final(vault).delegation_state.holds(
                (old(vault).delegation_state.staked() - amount) as u64,
                (old(vault).delegation_state.enqueued() + amount) as u64,
                old(vault).delegation_state.cooling(),
            )
            &&& *final(vault_operator_delegation) == (VaultOperatorDelegation {
                delegation_state: final(vault_operator_delegation).delegation_state,
                ..*old(vault_operator_delegation)
            })
            &&& final(vault_operator_delegation).delegation_state.holds(
                (old(vault_operator_delegation).delegation_state.staked() - amount) as u64,
                (old(vault_operator_delegation).delegation_state.enqueued() + amount) as u64,
                old(vault_operator_delegation).delegation_state.cooling(),
            )
        },
{
    match check_admin_gate(config, vault, vault.check_delegation_admin(delegation_admin), slot) {
        Ok(()) => {},
        Err(e) => {
            return Err(e);
        },
    }
    match vault.check_is_paused() {
        Ok(()) => {},
        Err(e) => {
            return Err(ProgramError::from(e));
        },
    }
    let mut vault2 = *vault;
    let mut delegation2 = *vault_operator_delegation;
    match delegation2.delegation_state.cooldown(amount) {
        Ok(()) => {},
        Err(e) => {
            return Err(ProgramError::from(e));
        },
    }
    match vault2.delegation_state.cooldown(amount) {
        Ok(()) => {},
        Err(e) => {
            return Err(ProgramError::from(e));
        },
    }
    *vault = vault2;
    *vault_operator_delegation = delegation2;
    Ok(())
}

/// Why deactivating a ticket's toggle is refused, after the admin gate, or `None` when
/// it is deactivated: only an active toggle can be.
pub open spec fn toggle_cooldown_error(toggle: SlotToggle, slot: int, epoch_length: int, failed: VaultError) -> Option<ProgramError> {
    if toggle_state(toggle, slot, epoch_length) != SlotToggleState::Active {
        Some(program_error_of(failed))
    } else {
        None
    }
}

/// Cools down the vault's support of an NCN: the NCN admin must act and the vault must be
/// up to date and not paused; the ticket must be active, and is deactivated at `slot`.
pub fn process_cooldown_vault_ncn_ticket(
    config: &Config,
    vault: &Vault,
    vault_ncn_ticket: &mut VaultNcnTicket,
    ncn_admin: &Address,
    slot: u64,
) -> (r: Result<(), ProgramError>)
    ensures
        ({
            let gate = admin_gate_error(*config, *vault, vault.ncn_admin@ == ncn_admin@, VaultError::VaultNcnAdminInvalid, slot as int);
            let err = if gate is Some {
                gate
            } else if vault.is_paused {
                Some(program_error_of(VaultError::VaultIsPaused))
            } else {
                toggle_cooldown_error(old(vault_ncn_ticket).state, slot as int, config.epoch_length as int,
                    VaultError::VaultNcnTicketFailedCooldown)
            };
            &&& r matches Err(e) ==> err == Some(e)
            &&& r is Ok <==> err is None
        }),
        r is Ok ==> config.epoch_length > 0 && vault.ncn_admin@ == ncn_admin@ && !vault.is_paused
            && vault.last_full_state_update_slot / config.epoch_length >= slot / config.epoch_length,
        r is Err ==> *final(vault_ncn_ticket) == *old(vault_ncn_ticket),
        r is Ok ==> *final(vault_ncn_ticket) == (VaultNcnTicket {
            state: SlotToggle { slot_removed: slot, ..old(vault_ncn_ticket).state },
            ..*old(vault_ncn_ticket)
        }),
{
    match check_admin_gate(config, vault, vault.check_ncn_admin(ncn_admin), slot) {
        Ok(()) => {},
        Err(e) => {
            return Err(e);
        },
    }
    match vault.check_is_paused() {
        Ok(()) => {},
        Err(e) => {
            return Err(ProgramError::from(e));
        },
    }
    match vault_ncn_ticket.state.deactivate(slot, config.epoch_length) {
        Ok(true) => Ok(()),
        Ok(false) => Err(ProgramError::from(VaultError::VaultNcnTicketFailedCooldown)),
        Err(e) => Err(ProgramError::from(e)),
    }
}

/// Cools down the vault's support of an NCN, by the earlier rules: the NCN admin must
/// act, and the ticket must be active; every refusal is invalid account data.
pub fn process_vault_cooldown_ncn(
    config: &Config,
    vault: &Vault,
    vault_ncn_ticket: &mut VaultNcnTicket,
    ncn_admin: &Address,
    slot: u64,
) -> (r: Result<(), ProgramError>)
    ensures
        ({
            let err = if vault.ncn_admin@ != ncn_admin@ {
                Some(ProgramError::InvalidAccountData)
            } else if config.epoch_length == 0 {
                Some(program_error_of(VaultError::DivisionByZero))
            } else if toggle_state(old(vault_ncn_ticket).state, slot as int, config.epoch_length as int) != SlotToggleState::Active {
                Some(ProgramError::InvalidAccountData)
            } else {
                None
            };
            &&& r matches Err(e) ==> err == Some(e)
            &&& r is Ok <==> err is None
        }),
        r is Err ==> *final(vault_ncn_ticket) == *old(vault_ncn_ticket),
        r is Ok ==> *final(vault_ncn_ticket) == (VaultNcnTicket {
            state: SlotToggle { slot_removed: slot, ..old(vault_ncn_ticket).state },
            ..*old(vault_ncn_ticket)
        }),
{
    if !vault.ncn_admin.equals(ncn_admin) {
        return Err(ProgramError::InvalidAccountData);
    }
    match vault_ncn_ticket.state.deactivate(slot, config.epoch_length) {
        Ok(true) => Ok(()),
        Ok(false) => Err(ProgramError::InvalidAccountData),
        Err(e) => Err(ProgramError::from(e)),
    }
}

/// Cools down a slasher of an NCN: the slasher admin must act and the vault must be up to
/// date; the ticket must be active, and is deactivated at `slot`.
pub fn process_cooldown_vault_ncn_slasher_ticket(
    config: &Config,
    vault: &Vault,
    vault_ncn_slasher_ticket: &mut VaultNcnSlasherTicket,
    slasher_admin: &Address,
    slot: u64,
) -> (r: Result<(), ProgramError>)
    ensures
        ({
            let gate = admin_gate_error(*config, *vault, vault.slasher_admin@ == slasher_admin@, VaultError::VaultSlasherAdminInvalid, slot as int);
            let err = if gate is Some {
                gate
            } else {
                toggle_cooldown_error(old(vault_ncn_slasher_ticket).state, slot as int, config.epoch_length as int,
                    VaultError::VaultNcnSlasherTicketFailedCooldown)
            };
            &&& r matches Err(e) ==> err == Some(e)
            &&& r is Ok <==> err is None
        }),
        r is Ok ==> config.epoch_length > 0 && vault.slasher_admin@ == slasher_admin@
            && vault.last_full_state_update_slot / config.epoch_length >= slot / config.epoch_length,
        r is Err ==> *final(vault_ncn_slasher_ticket) == *old(vault_ncn_slasher_ticket),
        r is Ok ==> *final(vault_ncn_slasher_ticket) == (VaultNcnSlasherTicket {
            state: SlotToggle { slot_removed: slot, ..old(vault_ncn_slasher_ticket).state },
            ..*old(vault_ncn_slasher_ticket)
        }),
{
    match check_admin_gate(config, vault, vault.check_slasher_admin(slasher_admin), slot) {
        Ok(()) => {},
        Err(e) => {
            return Err(e);
        },
    }
    match vault_ncn_slasher_ticket.state.deactivate(slot, config.epoch_length) {
        Ok(true) => Ok(()),
        Ok(false) => Err(ProgramError::from(VaultError::VaultNcnSlasherTicketFailedCooldown)),
        Err(e) => Err(ProgramError::from(e)),
    }
}

/// Hands a withdrawal ticket to a new owner: the vault must not be paused and the old
/// owner must be the ticket's staker.
pub fn process_change_withdrawal_ticket_owner(
    vault: &Vault,
    ticket: &mut VaultStakerWithdrawalTicket,
    old_owner: &Address,
    new_owner: &Address,
) -> (r: Result<(), ProgramError>)
    ensures
        r is Ok <==> (!vault.is_paused && old(ticket).staker@ == old_owner@),
        r matches Err(e) ==> (if vault.is_paused {
            e == program_error_of(VaultError::VaultIsPaused)
        } else {
            e == program_error_of(VaultError::VaultStakerWithdrawalTicketInvalidStaker)
        }),
        r is Err ==> *final(ticket) == *old(ticket),
        r is Ok ==> *final(ticket) == (VaultStakerWithdrawalTicket { staker: *new_owner, ..*old(ticket) }),
{
    match vault.check_is_paused() {
        Ok(()) => {},
        Err(e) => {
            return Err(ProgramError::from(e));
        },
    }
    match ticket.check_staker(old_owner) {
        Ok(()) => {},
        Err(e) => {
            return Err(ProgramError::from(e));
        },
    }
    ticket.staker = *new_owner;
    Ok(())
}

/// Opens the ticket of a slasher of an NCN for an operator in the current NCN epoch: the
/// ticket must sit at its program address for the vault, NCN, slasher, operator and epoch.
/// Returns the ticket and the seeds its account is created with.
pub fn process_initialize_vault_ncn_slasher_operator_ticket(
    program_id: &Address,
    config: &Config,
    vault_key: &Address,
    ncn: &Address,
    slasher: &Address,
    operator: &Address,
    ticket_key: &Address,
    slot: u64,
) -> (r: Result<(VaultNcnSlasherOperatorTicket, Vec<Vec<u8>>), ProgramError>)
    requires
        config.epoch_length > 0,
    ensures
        ({
            let epoch = (slot / config.epoch_length) as u64;
            let seeds = vault_ncn_slasher_operator_ticket_seeds(vault_key@, ncn@, slasher@, operator@, epoch);
            &&& r is Ok <==> found_key(seeds, program_id@) == Some(ticket_key@)
            &&& r matches Err(e) ==> e == ProgramError::InvalidAccountData
            &&& r matches Ok((t, s)) ==> found_program_address(seeds, program_id@) matches Some((_, bump))
                && t == (VaultNcnSlasherOperatorTicket { vault: *vault_key, ncn: *ncn, slasher: *slasher, operator: *operator, epoch, slashed: 0, bump })
                && s.deep_view() == seeds.push(seq![bump])
        }),
{
    let ncn_epoch = slot / config.epoch_length;
    let (key, bump, seeds) = match VaultNcnSlasherOperatorTicket::find_program_address(program_id, vault_key, ncn, slasher, operator, ncn_epoch) {
        Some(found) => found,
        None => {
            return Err(ProgramError::InvalidAccountData);
        },
    };
    if !key.equals(ticket_key) {
        return Err(ProgramError::InvalidAccountData);
    }
    let mut s = seeds;
    let ghost before = s.deep_view();
    let mut b: Vec<u8> = Vec::new();
    b.push(bump);
    proof {
        crate::address::lemma_bytes_deep_view(b);
    }
    s.push(b);
    assert(s.deep_view() =~= before.push(seq![bump]));
    Ok((VaultNcnSlasherOperatorTicket::new(*vault_key, *ncn, *slasher, *operator, ncn_epoch, bump), s))
}

/// Appends the bump seed to a list of seeds.
fn seeds_with_bump(seeds: Vec<Vec<u8>>, bump: u8) -> (r: Vec<Vec<u8>>)
    ensures
        r.deep_view() == seeds.deep_view().push(seq![bump]),
{
    let mut r = seeds;
    let ghost before = r.deep_view();
    let mut b: Vec<u8> = Vec::new();
    b.push(bump);
    proof {
        crate::address::lemma_bytes_deep_view(b);
    }
    r.push(b);
    assert(r.deep_view() =~= before.push(seq![bump]));
    r
}

/// Lets a delegate spend `amount` of a token the vault holds, other than its supported
/// token: the token account must belong to the mint's token program, the delegate asset
/// admin must act, and the vault must hold at least the amount. Returns the seeds, bump
/// seed last, the vault signs the approval with.
pub fn process_delegate_token_account(
    program_id: &Address,
    vault: &Vault,
    delegate_asset_admin: &Address,
    token_mint: &Address,
    token_mint_owner: &Address,
    token_account_owner: &Address,
    token_account_amount: u64,
    amount: u64,
) -> (r: Result<Vec<Vec<u8>>, ProgramError>)
    ensures
        ({
            let err = if token_mint_owner@ != token_account_owner@ {
                Some(ProgramError::InvalidAccountData)
            } else if vault.supported_mint@ == token_mint@ {
                Some(ProgramError::InvalidAccountData)
            } else if vault.delegate_asset_admin@ != delegate_asset_admin@ {
                Some(program_error_of(VaultError::VaultDelegateAssetAdminInvalid))
            } else if amount > token_account_amount {
                Some(ProgramError::InvalidInstructionData)
            } else if found_program_address(vault_seeds(vault.base@), program_id@) is None {
                Some(ProgramError::InvalidSeeds)
            } else {
                None
            };
            &&& r matches Err(e) ==> err == Some(e)
            &&& r is Ok <==> err is None
            &&& r matches Ok(seeds) ==> found_program_address(vault_seeds(vault.base@), program_id@) matches Some((_, bump))
                && seeds.deep_view() == vault_seeds(vault.base@).push(seq![bump])
        }),
{
    if !token_mint_owner.equals(token_account_owner) {
        return Err(ProgramError::InvalidAccountData);
    }
    if vault.supported_mint.equals(token_mint) {
        return Err(ProgramError::InvalidAccountData);
    }
    match vault.check_delegate_asset_admin(delegate_asset_admin) {
        Ok(()) => {},
        Err(e) => {
            return Err(ProgramError::from(e));
        },
    }
    if amount > token_account_amount {
        return Err(ProgramError::InvalidInstructionData);
    }
    match Vault::find_program_address(program_id, &vault.base) {
        Some((_, bump, seeds)) => Ok(seeds_with_bump(seeds, bump)),
        None => Err(ProgramError::InvalidSeeds),
    }
}

/// How one call grows the delegation list's account.
#[derive(Debug, Clone, Copy, PartialEq, Eq, Structural)]
pub enum AllocationStep {
    /// Create the account with this many bytes.
    Create(usize),
    /// Grow the program's account to this many bytes.
    Resize(usize),
}

/// One step of allocating a vault's delegation list, which may take several calls.
#[derive(Debug, Clone)]
pub struct DelegationListAllocation {
    pub step: AllocationStep,
    /// Whether the account reaches its full size with this step, so that its header is
    /// written now.
    pub initialize: bool,
    /// The list's seeds, bump seed last.
    pub signer_seeds: Vec<Vec<u8>>,
}

/// Allocates a vault's delegation list one step at a time, no step larger than
/// `max_increase`: the list must sit at its program address for the vault and not be
/// initialized yet; an account of the system program is created, an account of the
/// program grown, and one of any other owner refused.
pub fn process_initialize_vault_delegation_list(
    program_id: &Address,
    vault_key: &Address,
    list: &AccountView,
    full_size: usize,
    max_increase: usize,
) -> (r: Result<DelegationListAllocation, ProgramError>)
    requires
        list.data@.len() <= full_size,
    ensures
        ({
            let seeds = vault_delegation_list_seeds(vault_key@);
            let left = full_size - list.data@.len();
            let allocation = if left > max_increase { max_increase as int } else { left };
            let err = if found_key(seeds, program_id@) != Some(list.key@) {
                Some(ProgramError::InvalidAccountData)
            } else if list.data@.len() > 0 && list.data@[0] == VAULT_DELEGATION_LIST_DISCRIMINATOR {
                Some(ProgramError::AccountAlreadyInitialized)
            } else if list.owner@ != zero_key() && list.owner@ != program_id@ {
                Some(ProgramError::InvalidAccountOwner)
            } else {
                None
            };
            &&& r matches Err(e) ==> err == Some(e)
            &&& r is Ok <==> err is None
            &&& r matches Ok(a) ==> {
                &&& found_program_address(seeds, program_id@) matches Some((_, bump))
                    && a.signer_seeds.deep_view() == seeds.push(seq![bump])
                &&& list.owner@ == zero_key() ==> a.step == AllocationStep::Create(allocation as usize)
                    && a.initialize == (allocation == full_size)
                &&& list.owner@ != zero_key() ==> a.step == AllocationStep::Resize((list.data@.len() + allocation) as usize)
                    && a.initialize == (list.data@.len() + allocation == full_size)
            }
        }),
{
    let (key, bump, seeds) = match VaultDelegationList::find_program_address(program_id, vault_key) {
        Some(found) => found,
        None => {
            return Err(ProgramError::InvalidAccountData);
        },
    };
    if !key.equals(&list.key) {
        return Err(ProgramError::InvalidAccountData);
    }
    let data_len = list.data.len();
    if data_len > 0 && list.data[0] == VAULT_DELEGATION_LIST_DISCRIMINATOR {
        return Err(ProgramError::AccountAlreadyInitialized);
    }
    let allocation_left = full_size - data_len;
    let allocation = if allocation_left > max_increase {
        max_increase
    } else {
        allocation_left
    };
    let signer_seeds = seeds_with_bump(seeds, bump);
    if list.owner.is_zero() {
        Ok(DelegationListAllocation {
            step: AllocationStep::Create(allocation),
            initialize: allocation == full_size,
            signer_seeds,
        })
    } else if list.owner.equals(program_id) {
        let new_size = data_len + allocation;
        Ok(DelegationListAllocation {
            step: AllocationStep::Resize(new_size),
            initialize: new_size == full_size,
            signer_seeds,
        })
    } else {
        Err(ProgramError::InvalidAccountOwner)
    }
}

/// Checks the creation of the VRT's token metadata: the vault's admin must act, the mint
/// must be the vault's VRT mint, and the metadata account must be the mint's metadata
/// account under the metadata program. Returns the seeds, bump seed last, the vault signs
/// the creation with.
pub fn process_create_token_metadata(
    program_id: &Address,
    vault: &Vault,
    admin: &Address,
    vrt_mint: &Address,
    metadata: &AccountView,
    metadata_program_id: &Address,
) -> (r: Result<Vec<Vec<u8>>, ProgramError>)
    ensures
        ({
            let err = if vault.admin@ != admin@ {
                Some(program_error_of(VaultError::VaultAdminInvalid))
            } else if vault.vrt_mint@ != vrt_mint@ {
                Some(ProgramError::InvalidAccountData)
            } else if found_key(metadata_seeds(metadata_program_id@, vrt_mint@), metadata_program_id@) != Some(metadata.key@) {
                Some(ProgramError::InvalidAccountData)
            } else if found_program_address(vault_seeds(vault.base@), program_id@) is None {
                Some(ProgramError::InvalidSeeds)
            } else {
                None
            };
            &&& r matches Err(e) ==> err == Some(e)
            &&& r is Ok <==> err is None
            &&& r matches Ok(seeds) ==> found_program_address(vault_seeds(vault.base@), program_id@) matches Some((_, bump))
                && seeds.deep_view() == vault_seeds(vault.base@).push(seq![bump])
        }),
{
    match vault.check_admin(admin) {
        Ok(()) => {},
        Err(e) => {
            return Err(e);
        },
    }
    match vault.check_vrt_mint(vrt_mint) {
        Ok(()) => {},
        Err(e) => {
            return Err(e);
        },
    }
    match load_mpl_metadata(metadata, vrt_mint, metadata_program_id) {
        Ok(()) => {},
        Err(e) => {
            return Err(e);
        },
    }
    match Vault::find_program_address(program_id, &vault.base) {
        Some((_, bump, seeds)) => Ok(seeds_with_bump(seeds, bump)),
        None => Err(ProgramError::InvalidSeeds),
    }
}

/// An NCN ticket cooled down at `slot` is cooling down or inactive at that slot and every
/// later one.
pub proof fn lemma_cooled_down_ticket_stays_off(
    ticket: VaultNcnTicket,
    slot: u64,
    epoch_length: u64,
    ticket2: VaultNcnTicket,
    later: u64,
)
    requires
        epoch_length > 0,
        toggle_cooldown_error(ticket.state, slot as int, epoch_length as int, VaultError::VaultNcnTicketFailedCooldown) is None,
        ticket2 == (VaultNcnTicket { state: SlotToggle { slot_removed: slot, ..ticket.state }, ..ticket }),
        later >= slot,
    ensures
        toggle_state(ticket2.state, later as int, epoch_length as int) == SlotToggleState::Cooldown
            || toggle_state(ticket2.state, later as int, epoch_length as int) == SlotToggleState::Inactive,
{
    lemma_deactivate_stays_off(ticket.state, slot, later, epoch_length);
}

/// Stake is only delegated by the vault's delegation admin, on a vault that is up to date:
/// a delegation that succeeds has a nonzero epoch length and a vault whose last full
/// update is in the epoch of `slot`; a vault that missed an epoch update is refused with
/// `VaultUpdateNeeded` once the admin is right and the epoch length is not zero.
pub proof fn lemma_add_delegation_needs_admin_and_update(
    config: Config,
    vault: Vault,
    d: VaultOperatorDelegation,
    delegation_admin: Seq<u8>,
    slot: u64,
    amount: u64,
)
    ensures
        add_delegation_error(config, vault, d, delegation_admin, slot as int, amount as int) is None ==> {
            &&& config.epoch_length > 0
            &&& vault.delegation_admin@ == delegation_admin
            &&& vault.last_full_state_update_slot / config.epoch_length >= slot / config.epoch_length
            &&& amount > 0
        },
        vault.delegation_admin@ == delegation_admin && config.epoch_length > 0
            && vault.last_full_state_update_slot / config.epoch_length < slot / config.epoch_length
            ==> add_delegation_error(config, vault, d, delegation_admin, slot as int, amount as int)
            == Some(program_error_of(VaultError::VaultUpdateNeeded)),
{
}

/// Stake is only cooled down by the vault's delegation admin, on a vault that is up to
/// date and not paused, and for more than nothing: a cooldown that succeeds has a nonzero
/// epoch length and a vault whose last full update is in the epoch of `slot`, and moves no
/// more than the operator and the vault have staked; a vault that missed an epoch update
/// is refused with `VaultUpdateNeeded` once the admin is right and the epoch length is not
/// zero.
pub proof fn lemma_cooldown_delegation_needs_admin_and_update(
    config: Config,
    vault: Vault,
    d: VaultOperatorDelegation,
    delegation_admin: Seq<u8>,
    slot: u64,
    amount: u64,
)
    ensures
        cooldown_delegation_error(config, vault, d, delegation_admin, slot as int, amount as int) is None ==> {
            &&& config.epoch_length > 0
            &&& vault.delegation_admin@ == delegation_admin
            &&& vault.last_full_state_update_slot / config.epoch_length >= slot / config.epoch_length
            &&& !vault.is_paused
            &&& 0 < amount <= d.delegation_state.staked()
            &&& amount <= vault.delegation_state.staked()
        },
        vault.delegation_admin@ == delegation_admin && config.epoch_length > 0
            && vault.last_full_state_update_slot / config.epoch_length < slot / config.epoch_length
            ==> cooldown_delegation_error(config, vault, d, delegation_admin, slot as int, amount as int)
            == Some(program_error_of(VaultError::VaultUpdateNeeded)),
{
}

} // verus!
