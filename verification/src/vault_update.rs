//! The state changes of an epoch update of a vault: each crank brings one operator's
//! delegation up to date and adds it to the update tracker; closing the tracker in the
//! epoch it was opened for hands the accumulated state to the vault and moves the VRT
//! of pending withdrawals one stage on.
//!
//! Every function here works on copies and writes its accounts back only when it
//! succeeds, as the runtime discards the writes of a failed instruction.
use vstd::prelude::*;
use crate::config::Config;
use crate::delegation_state::{DelegationState, min_amount};
use crate::error::{ProgramError, VaultError, program_error_of};
use crate::vault::Vault;
use crate::vault_operator_delegation::VaultOperatorDelegation;
use crate::vault_update_state_tracker::{VaultUpdateStateTracker, WithdrawalAllocationMethod, next_index, all_updated, index_after, lemma_update_cycle};

verus! {

/// The stake the greedy allocation cools down from the operator in a crank: as much as
/// the vault still needs unstaked, up to the operator's stake, unless the operator was
/// already updated after the vault's last full update.
pub open spec fn greedy_cooldown(vault: Vault, d: VaultOperatorDelegation, epoch_length: int) -> int {
    let partially_updated = (vault.last_full_state_update_slot as int) / epoch_length < (d.last_update_slot as int) / epoch_length;
    if !partially_updated && vault.additional_assets_need_unstaking > 0 && d.delegation_state.staked() > 0 {
        min_amount(d.delegation_state.staked() as int, vault.additional_assets_need_unstaking as int)
    } else {
        0
    }
}

/// The staked, enqueued and cooling-down amounts of the operator after a crank that cools
/// down `cooled` and crosses `epochs` epoch boundaries (at least one).
pub open spec fn cranked_amounts(d: DelegationState, cooled: int, epochs: int) -> (int, int, int) {
    if epochs == 1 {
        (d.staked() - cooled, 0, d.enqueued() + cooled)
    } else {
        (d.staked() - cooled, 0, 0)
    }
}

/// Why a crank is refused, or `None` when it succeeds.
pub open spec fn crank_error(
    config: Config,
    vault: Vault,
    d: VaultOperatorDelegation,
    t: VaultUpdateStateTracker,
    slot: int,
) -> Option<ProgramError> {
    let el = config.epoch_length as int;
    if el == 0 {
        Some(program_error_of(VaultError::DivisionByZero))
    } else if vault.is_paused {
        Some(program_error_of(VaultError::VaultIsPaused))
    } else if (d.last_update_slot as int) / el >= slot / el {
        Some(program_error_of(VaultError::VaultOperatorDelegationIsUpdated))
    } else if vault.operator_count == 0 {
        if t.last_updated_index == u64::MAX {
            Some(program_error_of(VaultError::DivisionByZero))
        } else {
            Some(program_error_of(VaultError::ArithmeticOverflow))
        }
    } else if d.index != next_index(t.last_updated_index as int, t.ncn_epoch as int, vault.operator_count as int) {
        Some(program_error_of(VaultError::VaultUpdateIncorrectIndex))
    } else if t.withdrawal_allocation_method != 0 {
        Some(program_error_of(VaultError::InvalidWithdrawalAllocationMethod))
    } else {
        let cooled = greedy_cooldown(vault, d, el);
        let a = cranked_amounts(d.delegation_state, cooled, slot / el - (d.last_update_slot as int) / el);
        if d.delegation_state.enqueued() + cooled > u64::MAX {
            Some(program_error_of(VaultError::VaultSecurityOverflow))
        } else if t.delegation_state.staked() + a.0 > u64::MAX || t.delegation_state.enqueued() + a.1 > u64::MAX
            || t.delegation_state.cooling() + a.2 > u64::MAX {
            Some(program_error_of(VaultError::VaultSecurityOverflow))
        } else {
            None
        }
    }
}

/// What a crank needs: a nonzero epoch length, a vault that is not paused and has
/// operators, an operator not yet updated in the epoch of `slot`, handed in the tracker's
/// order (the round's start `ncn_epoch % operator_count` first, then each next one round
/// the operators), and the greedy allocation.
pub open spec fn crank_preconditions(config: Config, vault: Vault, d: VaultOperatorDelegation, t: VaultUpdateStateTracker, slot: int) -> bool {
    let el = config.epoch_length as int;
    let n = vault.operator_count as int;
    &&& el > 0
    &&& !vault.is_paused
    &&& (d.last_update_slot as int) / el < slot / el
    &&& n > 0
    &&& d.index == (if t.last_updated_index == u64::MAX { (t.ncn_epoch as int) % n } else { (t.last_updated_index + 1) % n })
    &&& t.withdrawal_allocation_method == 0
}

/// What a successful crank makes of the vault, the operator's delegation and the tracker.
pub open spec fn crank_step(
    config: Config,
    vault: Vault,
    d: VaultOperatorDelegation,
    t: VaultUpdateStateTracker,
    slot: int,
    vault2: Vault,
    d2: VaultOperatorDelegation,
    t2: VaultUpdateStateTracker,
) -> bool {
    let el = config.epoch_length as int;
    let cooled = greedy_cooldown(vault, d, el);
    let a = cranked_amounts(d.delegation_state, cooled, slot / el - (d.last_update_slot as int) / el);
    &&& crank_error(config, vault, d, t, slot) is None
    &&& vault2 == (Vault { additional_assets_need_unstaking: (vault.additional_assets_need_unstaking - cooled) as u64, ..vault })
    &&& d2 == (VaultOperatorDelegation { delegation_state: d2.delegation_state, last_update_slot: slot as u64, ..d })
    &&& d2.delegation_state.holds(a.0 as u64, a.1 as u64, a.2 as u64)
    &&& t2 == (VaultUpdateStateTracker { last_updated_index: d.index, delegation_state: t2.delegation_state, ..t })
    &&& t2.delegation_state.holds(
        (t.delegation_state.staked() + a.0) as u64,
        (t.delegation_state.enqueued() + a.1) as u64,
        (t.delegation_state.cooling() + a.2) as u64,
    )
}

/// Cranks the update of a vault for one operator: checks that the vault is not paused,
/// that the operator has not been updated this epoch and is the next one in the
/// tracker's order; cools down, greedily, what the vault still needs unstaked; brings the
/// operator's delegation to the current epoch and adds it to the tracker.
pub fn process_crank_vault_update_state_tracker(
    config: &Config,
    vault: &mut Vault,
    vault_operator_delegation: &mut VaultOperatorDelegation,
    vault_update_state_tracker: &mut VaultUpdateStateTracker,
    slot: u64,
) -> (r: Result<(), ProgramError>)
    ensures
        r matches Err(e) ==> crank_error(*config, *old(vault), *old(vault_operator_delegation), *old(vault_update_state_tracker), slot as int) == Some(e),
        r is Ok <==> crank_error(*config, *old(vault), *old(vault_operator_delegation), *old(vault_update_state_tracker), slot as int) is None,
        r is Ok ==> crank_step(
            *config,
            *old(vault),
            *old(vault_operator_delegation),
            *old(vault_update_state_tracker),
            slot as int,
            *final(vault),
            *final(vault_operator_delegation),
            *final(vault_update_state_tracker),
        ),
        r is Ok ==> crank_preconditions(*config, *old(vault), *old(vault_operator_delegation), *old(vault_update_state_tracker), slot as int),
        r is Err ==> *final(vault) == *old(vault) && *final(vault_operator_delegation) == *old(vault_operator_delegation)
            && *final(vault_update_state_tracker) == *old(vault_update_state_tracker),
{
    let ghost el = config.epoch_length as int;
    match config.get_epoch_from_slot(slot) {
        Ok(_) => {},
        Err(e) => {
            return Err(ProgramError::from(e));
        },
    }
    let epoch_length = config.epoch_length();
    let last_full_state_update_epoch = vault.last_full_state_update_slot / epoch_length;
    let operator_last_updated_epoch = vault_operator_delegation.last_update_slot / epoch_length;
    let has_been_partially_updated = last_full_state_update_epoch < operator_last_updated_epoch;

    match vault.check_is_paused() {
        Ok(()) => {},
        Err(e) => {
            return Err(ProgramError::from(e));
        },
    }
    if !vault_operator_delegation.is_update_needed(slot, epoch_length) {
        return Err(ProgramError::from(VaultError::VaultOperatorDelegationIsUpdated));
    }
    let mut vault2 = *vault;
    let mut delegation2 = *vault_operator_delegation;
    let mut tracker2 = *vault_update_state_tracker;
    match tracker2.check_and_update_index(delegation2.index, vault2.operator_count) {
        Ok(()) => {},
        Err(e) => {
            return Err(ProgramError::from(e));
        },
    }
    match WithdrawalAllocationMethod::from_byte(tracker2.withdrawal_allocation_method) {
        Ok(WithdrawalAllocationMethod::Greedy) => {
            let staked = delegation2.delegation_state.staked_amount();
            let needed = vault2.additional_assets_need_unstaking;
            if !has_been_partially_updated && needed > 0 && staked > 0 {
                let max_cooldown = if staked <= needed {
                    staked
                } else {
                    needed
                };
                match delegation2.delegation_state.cooldown(max_cooldown) {
                    Ok(()) => {},
                    Err(e) => {
                        return Err(ProgramError::from(e));
                    },
                }
                match vault2.decrement_additional_assets_need_unstaking(max_cooldown) {
                    Ok(()) => {},
                    Err(e) => {
                        return Err(ProgramError::from(e));
                    },
                }
            }
        },
        Err(e) => {
            return Err(ProgramError::from(e));
        },
    }
    delegation2.update(slot, epoch_length);
    match tracker2.delegation_state.accumulate(&delegation2.delegation_state) {
        Ok(()) => {},
        Err(e) => {
            return Err(ProgramError::from(e));
        },
    }
    *vault = vault2;
    *vault_operator_delegation = delegation2;
    *vault_update_state_tracker = tracker2;
    Ok(())
}

/// Why closing a tracker is refused, or `None` when it succeeds.
pub open spec fn close_error(vault: Vault, t: VaultUpdateStateTracker, ncn_epoch: int, current_epoch: int) -> Option<ProgramError> {
    if ncn_epoch != current_epoch {
        None
    } else if vault.operator_count > 0 && !all_updated(t.last_updated_index as int, t.ncn_epoch as int, vault.operator_count as int) {
        Some(program_error_of(VaultError::VaultUpdateStateNotFinishedUpdating))
    } else if vault.vrt_ready_to_claim_amount + vault.vrt_cooling_down_amount > u64::MAX {
        Some(program_error_of(VaultError::VaultOverflow))
    } else {
        None
    }
}

/// The index of the operator updated last in an epoch's round: the one just before the
/// round's start `ncn_epoch % num_operators`, going round to the last operator when the
/// round starts at the first.
pub open spec fn last_operator_index(ncn_epoch: int, num_operators: int) -> int {
    let start = ncn_epoch % num_operators;
    if start == 0 {
        num_operators - 1
    } else {
        start - 1
    }
}

/// What closing the tracker of the current epoch makes of the vault.
pub open spec fn close_step(vault: Vault, t: VaultUpdateStateTracker, slot: u64, vault2: Vault) -> bool {
    vault2 == (Vault {
        delegation_state: t.delegation_state,
        last_full_state_update_slot: slot,
        vrt_ready_to_claim_amount: (vault.vrt_ready_to_claim_amount + vault.vrt_cooling_down_amount) as u64,
        vrt_cooling_down_amount: vault.vrt_enqueued_for_cooldown_amount,
        vrt_enqueued_for_cooldown_amount: 0,
        ..vault
    })
}

/// Closes the update of a vault. A tracker of an earlier epoch is only closed. A tracker
/// of the current epoch must have seen every operator; its accumulated delegation state
/// becomes the vault's, the update is recorded at `slot`, and the VRT of withdrawals moves
/// one stage on: cooling down becomes ready to claim, enqueued becomes cooling down.
pub fn process_close_vault_update_state_tracker(
    config: &Config,
    vault: &mut Vault,
    vault_update_state_tracker: &VaultUpdateStateTracker,
    ncn_epoch: u64,
    slot: u64,
) -> (r: Result<(), ProgramError>)
    requires
        config.epoch_length > 0,
    ensures
        r matches Err(e) ==> close_error(*old(vault), *vault_update_state_tracker, ncn_epoch as int, (slot / config.epoch_length) as int) == Some(e),
        r is Ok <==> close_error(*old(vault), *vault_update_state_tracker, ncn_epoch as int, (slot / config.epoch_length) as int) is None,
        r is Err || ncn_epoch != slot / config.epoch_length ==> *final(vault) == *old(vault),
        r is Ok && ncn_epoch == slot / config.epoch_length ==> close_step(*old(vault), *vault_update_state_tracker, slot, *final(vault)),
        r is Ok && ncn_epoch == slot / config.epoch_length && old(vault).operator_count > 0
            ==> vault_update_state_tracker.last_updated_index == last_operator_index(vault_update_state_tracker.ncn_epoch as int,
            old(vault).operator_count as int),
{
    let current_ncn_epoch = slot / config.epoch_length;
    if ncn_epoch != current_ncn_epoch {
        return Ok(());
    }
    if vault.operator_count > 0 {
        match vault_update_state_tracker.all_operators_updated(vault.operator_count) {
            Ok(true) => {},
            Ok(false) => {
                return Err(ProgramError::from(VaultError::VaultUpdateStateNotFinishedUpdating));
            },
            Err(e) => {
                return Err(ProgramError::from(e));
            },
        }
    }
    let ready = match vault.vrt_ready_to_claim_amount.checked_add(vault.vrt_cooling_down_amount) {
        Some(x) => x,
        None => {
            return Err(ProgramError::from(VaultError::VaultOverflow));
        },
    };
    vault.delegation_state = vault_update_state_tracker.delegation_state;
    vault.last_full_state_update_slot = slot;
    vault.vrt_ready_to_claim_amount = ready;
    vault.vrt_cooling_down_amount = vault.vrt_enqueued_for_cooldown_amount;
    vault.vrt_enqueued_for_cooldown_amount = 0;
    Ok(())
}

/// A successful crank only happens on a vault that is not paused, for an operator not yet
/// updated in the current epoch, with the greedy allocation. Afterwards the operator is
/// recorded as updated at `slot` and has nothing enqueued for cooldown. Its stake shrinks
/// by exactly the amount cooled down for withdrawals, which is as much as the vault still
/// needed, up to the operator's stake, when the operator had not been updated after the
/// vault, and nothing otherwise. After one epoch boundary, what was enqueued and what was
/// cooled down is cooling down; after more, nothing is. The vault needs that amount less
/// unstaked, and the tracker holds its earlier amounts plus the operator's new ones.
pub proof fn lemma_crank_integrity(
    config: Config,
    vault: Vault,
    d: VaultOperatorDelegation,
    t: VaultUpdateStateTracker,
    slot: u64,
    vault2: Vault,
    d2: VaultOperatorDelegation,
    t2: VaultUpdateStateTracker,
)
    requires
        crank_step(config, vault, d, t, slot as int, vault2, d2, t2),
    ensures
        ({
            let el = config.epoch_length as int;
            let now_epoch = (slot as int) / el;
            let vault_epoch = (vault.last_full_state_update_slot as int) / el;
            let operator_epoch = (d.last_update_slot as int) / el;
            let old_state = d.delegation_state;
            let new_state = d2.delegation_state;
            let cooled = if operator_epoch <= vault_epoch {
                min_amount(vault.additional_assets_need_unstaking as int, old_state.staked() as int)
            } else {
                0
            };
            &&& el > 0
            &&& !vault.is_paused
            &&& operator_epoch < now_epoch
            &&& d2.last_update_slot == slot
            &&& t.withdrawal_allocation_method == 0
            &&& new_state.enqueued() == 0
            &&& new_state.staked() <= old_state.staked()
            &&& new_state.staked() == old_state.staked() - cooled
            &&& now_epoch - operator_epoch == 1 ==> new_state.cooling() == old_state.enqueued() + cooled
            &&& now_epoch - operator_epoch > 1 ==> new_state.cooling() == 0
            &&& vault2.additional_assets_need_unstaking == vault.additional_assets_need_unstaking - cooled
            &&& t2.delegation_state.staked() == t.delegation_state.staked() + new_state.staked()
            &&& t2.delegation_state.enqueued() == t.delegation_state.enqueued() + new_state.enqueued()
            &&& t2.delegation_state.cooling() == t.delegation_state.cooling() + new_state.cooling()
        }),
{
}

/// Closing the tracker of the current epoch moves the VRT of pending withdrawals one stage
/// on and loses none of it: what was enqueued is cooling down, what was cooling down is
/// ready to claim, and the three amounts add up to what they did before.
pub proof fn lemma_close_moves_withdrawals_one_stage(vault: Vault, t: VaultUpdateStateTracker, slot: u64, vault2: Vault)
    requires
        close_step(vault, t, slot, vault2),
        vault.vrt_ready_to_claim_amount + vault.vrt_cooling_down_amount <= u64::MAX,
    ensures
        vault2.vrt_enqueued_for_cooldown_amount == 0,
        vault2.vrt_cooling_down_amount == vault.vrt_enqueued_for_cooldown_amount,
        vault2.vrt_ready_to_claim_amount == vault.vrt_ready_to_claim_amount + vault.vrt_cooling_down_amount,
        vault2.vrt_enqueued_for_cooldown_amount + vault2.vrt_cooling_down_amount + vault2.vrt_ready_to_claim_amount
            == vault.vrt_enqueued_for_cooldown_amount + vault.vrt_cooling_down_amount + vault.vrt_ready_to_claim_amount,
        vault2.delegation_state == t.delegation_state,
        vault2.last_full_state_update_slot == slot,
{
}

/// The update of an epoch is only closed once every operator has been updated: closing the
/// tracker of the current epoch on a vault with operators succeeds only when the tracker
/// last updated the operator just before the round's start. A tracker that has been handed
/// fewer than `operator_count` operators, each in the expected order, is refused with
/// `VaultUpdateStateNotFinishedUpdating`; one that has been handed all of them is not.
pub proof fn lemma_close_needs_every_operator(vault: Vault, t: VaultUpdateStateTracker, epoch: int, k: nat)
    requires
        vault.operator_count > 0,
    ensures
        close_error(vault, t, epoch, epoch) is None
            ==> t.last_updated_index == last_operator_index(t.ncn_epoch as int, vault.operator_count as int),
        k < vault.operator_count && t.last_updated_index == index_after(t.ncn_epoch as int, vault.operator_count as int, k)
            ==> close_error(vault, t, epoch, epoch) == Some(program_error_of(VaultError::VaultUpdateStateNotFinishedUpdating)),
        k == vault.operator_count && t.last_updated_index == index_after(t.ncn_epoch as int, vault.operator_count as int, k)
            ==> close_error(vault, t, epoch, epoch) != Some(program_error_of(VaultError::VaultUpdateStateNotFinishedUpdating)),
{
    if 1 <= k && k <= vault.operator_count {
        lemma_update_cycle(t.ncn_epoch, vault.operator_count, k);
    }
    if k == 0 && k < vault.operator_count && t.last_updated_index == index_after(t.ncn_epoch as int, vault.operator_count as int, k) {
        assert(t.last_updated_index == u64::MAX);
    }
}

/// A crank only succeeds for the next operator in the round, on an up-to-date-able vault:
/// the epoch length is not zero, the vault is not paused and has operators, the operator
/// was not yet updated in the epoch of `slot`, its index is the round's start for a fresh
/// tracker and the one after the last updated otherwise, and the allocation is greedy.
/// An operator handed out of turn is refused with `VaultUpdateIncorrectIndex`.
pub proof fn lemma_crank_needs_next_operator(config: Config, vault: Vault, d: VaultOperatorDelegation, t: VaultUpdateStateTracker, slot: u64)
    ensures
        crank_error(config, vault, d, t, slot as int) is None ==> crank_preconditions(config, vault, d, t, slot as int),
        ({
            let el = config.epoch_length as int;
            let n = vault.operator_count as int;
            el > 0 && !vault.is_paused && (d.last_update_slot as int) / el < (slot as int) / el && n > 0
                && d.index != (if t.last_updated_index == u64::MAX { (t.ncn_epoch as int) % n } else { (t.last_updated_index + 1) % n })
                ==> crank_error(config, vault, d, t, slot as int) == Some(program_error_of(VaultError::VaultUpdateIncorrectIndex))
        }),
{
}

} // verus!
