//! The [`VaultOperatorDelegation`] account tracks a vault's delegation to an operator.
use vstd::prelude::*;
use vstd::string::*;
use crate::account::{AccountView, found_key, load_outcome, load_program_account};
use crate::address::{Address, found_program_address, seed_from_str, try_find_program_address, lemma_bytes_deep_view};
use crate::delegation_state::DelegationState;
use crate::error::ProgramError;

verus! {

/// The first byte of a vault operator delegation account.
pub const VAULT_OPERATOR_DELEGATION_DISCRIMINATOR: u8 = 4;

/// The length of an operator delegation account's data: an 8-byte header and its fields.
pub const VAULT_OPERATOR_DELEGATION_ACCOUNT_LEN: usize = 632;

/// The [`VaultOperatorDelegation`] account tracks a vault's delegation to an operator.
#[derive(Debug, Clone, Copy, PartialEq, Eq)]
pub struct VaultOperatorDelegation {
    /// The vault account
    pub vault: Address,
    /// The operator account
    pub operator: Address,
    pub delegation_state: DelegationState,
    /// The last slot the [`VaultOperatorDelegation::update`] method was updated
    pub last_update_slot: u64,
    /// The index
    pub index: u64,
    /// The bump seed for the PDA
    pub bump: u8,
}

/// The seeds of the delegation account of a vault to an operator.
pub open spec fn vault_operator_delegation_seeds(vault: Seq<u8>, operator: Seq<u8>) -> Seq<Seq<u8>> {
    seq!["vault_operator_delegation".spec_bytes(), vault, operator]
}

/// The delegation state after `epochs` epoch boundaries have passed: one update moves
/// the enqueued stake to cooling down, a second releases it.
pub open spec fn state_after_epochs(d: DelegationState, epochs: int, r: DelegationState) -> bool {
    if epochs == 0 {
        r == d
    } else if epochs == 1 {
        r.holds(d.staked(), 0, d.enqueued())
    } else {
        r.holds(d.staked(), 0, 0)
    }
}

impl VaultOperatorDelegation {
    pub fn new(vault: Address, operator: Address, index: u64, bump: u8) -> (r: Self)
        ensures
            r.vault == vault && r.operator == operator && r.index == index && r.bump == bump,
            r.last_update_slot == 0 && r.delegation_state.holds(0, 0, 0),
    {
        Self { vault, operator, last_update_slot: 0, delegation_state: DelegationState::default(), index, bump }
    }

    pub fn last_update_slot(&self) -> (r: u64)
        ensures
            r == self.last_update_slot,
    {
        self.last_update_slot
    }

    pub fn index(&self) -> (r: u64)
        ensures
            r == self.index,
    {
        self.index
    }

    /// Whether an epoch boundary has passed since the last update.
    pub fn is_update_needed(&self, slot: u64, epoch_length: u64) -> (r: bool)
        requires
            epoch_length > 0,
        ensures
            r == (self.last_update_slot / epoch_length < slot / epoch_length),
    {
        let last_updated_epoch = self.last_update_slot / epoch_length;
        let current_epoch = slot / epoch_length;
        last_updated_epoch < current_epoch
    }

    /// Brings the delegation to the epoch of `slot`: what was enqueued for cooldown is
    /// cooling down after one epoch and released after two.
    pub fn update(&mut self, slot: u64, epoch_length: u64)
        requires
            epoch_length > 0,
            old(self).last_update_slot / epoch_length <= slot / epoch_length,
        ensures
            state_after_epochs(
                old(self).delegation_state,
                slot / epoch_length - old(self).last_update_slot / epoch_length,
                final(self).delegation_state,
            ),
            *final(self) == (VaultOperatorDelegation {
                delegation_state: final(self).delegation_state,
                last_update_slot: slot,
                ..*old(self)
            }),
    {
        let last_update_epoch = self.last_update_slot / epoch_length;
        let current_epoch = slot / epoch_length;
        let epoch_diff = current_epoch - last_update_epoch;
        if epoch_diff == 1 {
            self.delegation_state.update();
        } else if epoch_diff > 1 {
            // at most two transitions: enqueued -> cooling down -> released
            self.delegation_state.update();
            self.delegation_state.update();
        }
        self.last_update_slot = slot;
    }

    /// The seeds for the PDA.
    pub fn seeds(vault: &Address, operator: &Address) -> (r: Vec<Vec<u8>>)
        ensures
            r.deep_view() == vault_operator_delegation_seeds(vault@, operator@),
    {
        let mut r: Vec<Vec<u8>> = Vec::new();
        r.push(seed_from_str("vault_operator_delegation"));
        let v = vault.to_vec();
        let o = operator.to_vec();
        proof {
            lemma_bytes_deep_view(v);
            lemma_bytes_deep_view(o);
        }
        r.push(v);
        r.push(o);
        assert(r.deep_view() =~= vault_operator_delegation_seeds(vault@, operator@));
        r
    }

    /// The program address of the delegation, its bump seed and its seeds.
    pub fn find_program_address(program_id: &Address, vault: &Address, operator: &Address) -> (r: Option<(Address, u8, Vec<Vec<u8>>)>)
        ensures
            found_program_address(vault_operator_delegation_seeds(vault@, operator@), program_id@) matches Some((k, b))
                ==> (r matches Some(t) && t.0@ == k && t.1 == b && t.2.deep_view() == vault_operator_delegation_seeds(vault@, operator@)),
            found_program_address(vault_operator_delegation_seeds(vault@, operator@), program_id@) is None ==> r is None,
    {
        let seeds = Self::seeds(vault, operator);
        match try_find_program_address(&seeds, program_id) {
            Some((key, bump)) => Some((key, bump, seeds)),
            None => None,
        }
    }

    /// Loads the [`VaultOperatorDelegation`] account of the vault to the operator.
    pub fn load(
        program_id: &Address,
        vault_operator_delegation: &AccountView,
        vault: &AccountView,
        operator: &AccountView,
        expect_writable: bool,
    ) -> (r: Result<(), ProgramError>)
        ensures
            r == load_outcome(program_id@, *vault_operator_delegation, expect_writable,
                VAULT_OPERATOR_DELEGATION_DISCRIMINATOR,
                found_key(vault_operator_delegation_seeds(vault.key@, operator.key@), program_id@)),
    {
        let seeds = Self::seeds(&vault.key, &operator.key);
        load_program_account(program_id, vault_operator_delegation, expect_writable, VAULT_OPERATOR_DELEGATION_DISCRIMINATOR, &seeds)
    }
}

} // verus!
