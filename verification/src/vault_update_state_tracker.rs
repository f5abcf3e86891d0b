//! The [`VaultUpdateStateTracker`] account accumulates the delegation state of every
//! operator while a vault is brought up to date for an NCN epoch.
use vstd::prelude::*;
use vstd::string::*;
use crate::account::{AccountView, found_key, load_outcome, load_program_account};
use crate::address::{Address, found_program_address, seed_from_str, try_find_program_address, lemma_bytes_deep_view};
use crate::delegation_state::DelegationState;
use crate::error::{ProgramError, VaultError};

verus! {

/// The first byte of a vault update state tracker account.
pub const VAULT_UPDATE_STATE_TRACKER_DISCRIMINATOR: u8 = 8;

/// The length of an update tracker account's data: an 8-byte header and its fields.
pub const VAULT_UPDATE_STATE_TRACKER_ACCOUNT_LEN: usize = 608;

#[derive(Debug, Clone, Copy, PartialEq, Eq)]
pub struct VaultUpdateStateTracker {
    /// The vault associated with this update ticket
    pub vault: Address,
    /// The NCN epoch for which the delegations are to be updated
    pub ncn_epoch: u64,
    /// The last updated index of the vault (`u64::MAX` before the first operator)
    pub last_updated_index: u64,
    /// The amount of additional assets that need unstaking to fulfill VRT withdrawals
    pub additional_assets_need_unstaking: u64,
    /// The total amount delegated across all the operators in the vault
    pub delegation_state: DelegationState,
    pub withdrawal_allocation_method: u8,
}

/// How the assets that withdrawals need are taken from the operators during an update.
#[derive(Debug, Clone, Copy, PartialEq, Eq, Structural)]
pub enum WithdrawalAllocationMethod {
    /// Cool down as much as needed from each operator in turn.
    Greedy,
}

impl WithdrawalAllocationMethod {
    /// The method a tracker's stored byte names: only `0`, greedy, is known.
    pub fn from_byte(b: u8) -> (r: Result<WithdrawalAllocationMethod, VaultError>)
        ensures
            r is Ok <==> b == 0,
            r matches Ok(m) ==> m == WithdrawalAllocationMethod::Greedy,
            r matches Err(e) ==> e == VaultError::InvalidWithdrawalAllocationMethod,
    {
        if b == 0 {
            Ok(WithdrawalAllocationMethod::Greedy)
        } else {
            Err(VaultError::InvalidWithdrawalAllocationMethod)
        }
    }
}

/// The seeds of the tracker of a vault for an NCN epoch.
pub open spec fn vault_update_state_tracker_seeds(vault: Seq<u8>, ncn_epoch: u64) -> Seq<Seq<u8>> {
    seq!["vault_update_state_tracker".spec_bytes(), vault, vstd::bytes::spec_u64_to_le_bytes(ncn_epoch)]
}

/// The operator index the update for `ncn_epoch` starts at, so that no single operator
/// is always updated last.
pub open spec fn start_index(ncn_epoch: int, num_operators: int) -> int {
    ncn_epoch % num_operators
}

/// The index that must be updated next, after `last` (`u64::MAX` before the first).
pub open spec fn next_index(last: int, ncn_epoch: int, num_operators: int) -> int {
    if last == u64::MAX {
        start_index(ncn_epoch, num_operators)
    } else {
        (last + 1) % num_operators
    }
}

/// Whether the operator last updated is the one just before the start index, that is,
/// whether every operator has been updated.
pub open spec fn all_updated(last: int, ncn_epoch: int, num_operators: int) -> bool {
    last != u64::MAX && (if start_index(ncn_epoch, num_operators) == 0 {
        last == num_operators - 1
    } else {
        last == start_index(ncn_epoch, num_operators) - 1
    })
}


/// The index recorded after `k` updates of a fresh tracker, each with the expected index.
pub open spec fn index_after(ncn_epoch: int, num_operators: int, k: nat) -> int
    decreases k,
{
    if k == 0 {
        u64::MAX as int
    } else {
        next_index(index_after(ncn_epoch, num_operators, (k - 1) as nat), ncn_epoch, num_operators)
    }
}

/// A fresh tracker that is handed the expected index each time visits the operators in
/// turn from `ncn_epoch % num_operators`, and reports every operator updated exactly
/// after the `num_operators`-th update.
pub proof fn lemma_update_cycle(ncn_epoch: u64, num_operators: u64, k: nat)
    requires
        num_operators > 0,
        1 <= k <= num_operators,
    ensures
        index_after(ncn_epoch as int, num_operators as int, k) == (start_index(ncn_epoch as int, num_operators as int) + k - 1) % (num_operators as int),
        all_updated(index_after(ncn_epoch as int, num_operators as int, k), ncn_epoch as int, num_operators as int) <==> k == num_operators,
    decreases k,
{
    let n = num_operators as int;
    let s = start_index(ncn_epoch as int, n);
    vstd::arithmetic::div_mod::lemma_mod_bound(ncn_epoch as int, n);
    if k == 1 {
        vstd::arithmetic::div_mod::lemma_small_mod(s as nat, n as nat);
    } else {
        lemma_update_cycle(ncn_epoch, num_operators, (k - 1) as nat);
        let prev = index_after(ncn_epoch as int, n, (k - 1) as nat);
        vstd::arithmetic::div_mod::lemma_mod_bound(s + k - 2, n);
        assert(prev != u64::MAX);
        vstd::arithmetic::div_mod::lemma_add_mod_noop(s + k - 2, 1, n);
        vstd::arithmetic::div_mod::lemma_small_mod(1, n as nat);
        if n == 1 {
            assert(1int % 1 == 0);
            assert((s + k - 2 + 1) % n == 0);
        }
    }
    let last = index_after(ncn_epoch as int, n, k);
    let x = s + k - 1;
    vstd::arithmetic::div_mod::lemma_mod_bound(x, n);
    if x < n {
        vstd::arithmetic::div_mod::lemma_small_mod(x as nat, n as nat);
    } else {
        vstd::arithmetic::div_mod::lemma_mod_sub_multiples_vanish(x, n);
        vstd::arithmetic::div_mod::lemma_small_mod((x - n) as nat, n as nat);
    }
}

impl VaultUpdateStateTracker {
    pub fn new(vault: Address, ncn_epoch: u64, additional_assets_need_unstaking: u64, withdrawal_allocation_method: u8) -> (r: Self)
        ensures
            r.vault == vault && r.ncn_epoch == ncn_epoch && r.additional_assets_need_unstaking == additional_assets_need_unstaking,
            r.last_updated_index == u64::MAX && r.delegation_state.holds(0, 0, 0),
            r.withdrawal_allocation_method == withdrawal_allocation_method,
    {
        Self {
            vault,
            ncn_epoch,
            additional_assets_need_unstaking,
            last_updated_index: u64::MAX,
            delegation_state: DelegationState::default(),
            withdrawal_allocation_method,
        }
    }

    pub fn ncn_epoch(&self) -> (r: u64)
        ensures
            r == self.ncn_epoch,
    {
        self.ncn_epoch
    }

    pub fn additional_assets_need_unstaking(&self) -> (r: u64)
        ensures
            r == self.additional_assets_need_unstaking,
    {
        self.additional_assets_need_unstaking
    }

    pub fn last_updated_index(&self) -> (r: u64)
        ensures
            r == self.last_updated_index,
    {
        self.last_updated_index
    }

    pub fn decrement_additional_assets_need_unstaking(&mut self, amount: u64) -> (r: Result<(), VaultError>)
        ensures
            r is Ok <==> old(self).additional_assets_need_unstaking >= amount,
            r is Ok ==> *final(self) == (VaultUpdateStateTracker {
                additional_assets_need_unstaking: (old(self).additional_assets_need_unstaking - amount) as u64,
                ..*old(self)
            }),
            r matches Err(e) ==> e == VaultError::VaultUnderflow && *final(self) == *old(self),
    {
        if self.additional_assets_need_unstaking < amount {
            return Err(VaultError::VaultUnderflow);
        }
        self.additional_assets_need_unstaking = self.additional_assets_need_unstaking - amount;
        Ok(())
    }

    /// Checks that `index` is the next operator to update and records it. The update
    /// starts at `ncn_epoch % num_operators` and goes round the operators in order.
    pub fn check_and_update_index(&mut self, index: u64, num_operators: u64) -> (r: Result<(), VaultError>)
        ensures
            r is Ok <==> (num_operators > 0 && index == next_index(
                old(self).last_updated_index as int,
                old(self).ncn_epoch as int,
                num_operators as int,
            )),
            r is Ok ==> *final(self) == (VaultUpdateStateTracker { last_updated_index: index, ..*old(self) }),
            r matches Err(e) ==> *final(self) == *old(self) && (if num_operators == 0 {
                if old(self).last_updated_index == u64::MAX {
                    e == VaultError::DivisionByZero
                } else {
                    e == VaultError::ArithmeticOverflow
                }
            } else {
                e == VaultError::VaultUpdateIncorrectIndex
            }),
    {
        if self.last_updated_index == u64::MAX {
            if num_operators == 0 {
                return Err(VaultError::DivisionByZero);
            }
            let start_index = self.ncn_epoch % num_operators;
            if index != start_index {
                return Err(VaultError::VaultUpdateIncorrectIndex);
            }
        } else {
            if num_operators == 0 {
                return Err(VaultError::ArithmeticOverflow);
            }
            let next_index = (self.last_updated_index + 1) % num_operators;
            if index != next_index {
                return Err(VaultError::VaultUpdateIncorrectIndex);
            }
        }
        self.last_updated_index = index;
        Ok(())
    }

    /// Whether every operator has been updated.
    pub fn all_operators_updated(&self, num_operators: u64) -> (r: Result<bool, VaultError>)
        ensures
            r is Ok <==> (self.last_updated_index == u64::MAX || num_operators > 0),
            r matches Ok(b) ==> b == all_updated(self.last_updated_index as int, self.ncn_epoch as int, num_operators as int),
            r matches Err(e) ==> e == VaultError::DivisionByZero,
    {
        if self.last_updated_index == u64::MAX {
            return Ok(false);
        }
        if num_operators == 0 {
            return Err(VaultError::DivisionByZero);
        }
        let start_index = self.ncn_epoch % num_operators;
        if start_index == 0 {
            return Ok(self.last_updated_index == num_operators - 1);
        }
        Ok(self.last_updated_index == start_index - 1)
    }

    /// The seeds of the tracker of a vault for an NCN epoch.
    pub fn seeds(vault: &Address, ncn_epoch: u64) -> (r: Vec<Vec<u8>>)
        ensures
            r.deep_view() == vault_update_state_tracker_seeds(vault@, ncn_epoch),
    {
        let mut r: Vec<Vec<u8>> = Vec::new();
        r.push(seed_from_str("vault_update_state_tracker"));
        let v = vault.to_vec();
        let e = vstd::bytes::u64_to_le_bytes(ncn_epoch);
        proof {
            lemma_bytes_deep_view(v);
            lemma_bytes_deep_view(e);
        }
        r.push(v);
        r.push(e);
        assert(r.deep_view() =~= vault_update_state_tracker_seeds(vault@, ncn_epoch));
        r
    }

    /// The program address of the tracker, its bump seed and its seeds.
    pub fn find_program_address(program_id: &Address, vault: &Address, ncn_epoch: u64) -> (r: Option<(Address, u8, Vec<Vec<u8>>)>)
        ensures
            found_program_address(vault_update_state_tracker_seeds(vault@, ncn_epoch), program_id@) matches Some((k, b))
                ==> (r matches Some(t) && t.0@ == k && t.1 == b && t.2.deep_view() == vault_update_state_tracker_seeds(vault@, ncn_epoch)),
            found_program_address(vault_update_state_tracker_seeds(vault@, ncn_epoch), program_id@) is None ==> r is None,
    {
        let seeds = Self::seeds(vault, ncn_epoch);
        match try_find_program_address(&seeds, program_id) {
            Some((key, bump)) => Some((key, bump, seeds)),
            None => None,
        }
    }

    /// Loads the tracker of the vault for the NCN epoch.
    pub fn load(
        program_id: &Address,
        vault_update_delegation_ticket: &AccountView,
        vault: &AccountView,
        ncn_epoch: u64,
        expect_writable: bool,
    ) -> (r: Result<(), ProgramError>)
        ensures
            r == load_outcome(program_id@, *vault_update_delegation_ticket, expect_writable,
                VAULT_UPDATE_STATE_TRACKER_DISCRIMINATOR,
                found_key(vault_update_state_tracker_seeds(vault.key@, ncn_epoch), program_id@)),
    {
        let seeds = Self::seeds(&vault.key, ncn_epoch);
        load_program_account(program_id, vault_update_delegation_ticket, expect_writable, VAULT_UPDATE_STATE_TRACKER_DISCRIMINATOR, &seeds)
    }
}

} // verus!
