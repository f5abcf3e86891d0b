//! The operators that have opted in to a vault and the stake delegated to each of them.
use vstd::prelude::*;
use vstd::string::*;
use crate::address::{Address, zero_address, lemma_zero_address, lemma_address_view_injective, found_program_address, seed_from_str, try_find_program_address, lemma_bytes_deep_view, zero_key};
use crate::error::ProgramError;
use crate::math::{ceil_div, ceil_div_u128};
use crate::operator_delegation::{OperatorDelegation, undelegated_for_withdraw, pulled_for_withdraw, pro_rata_slashed, smaller};
use crate::result::VaultCoreError;

verus! {

/// How stake is taken from the operators to meet a withdrawal.
#[derive(Debug, Clone, Copy, PartialEq, Eq, Structural)]
pub enum UndelegateForWithdrawMethod {
    /// Withdraws from each operator's delegated amount in proportion to the total delegated amount
    ProRata,
}

/// What an update of the delegation list did.
#[derive(Debug, Clone, Copy, PartialEq, Eq, Structural)]
pub enum VaultDelegationUpdateSummary {
    NotUpdated,
    Updated { amount_reserved_for_withdraw: u64 },
}

/// The most operators a vault can delegate to.
pub const MAX_DELEGATIONS: usize = 128;

/// The first byte of a vault delegation list account.
pub const VAULT_DELEGATION_LIST_DISCRIMINATOR: u8 = 8;

/// Represents the operators which have opted in to this vault.
#[derive(Debug, Clone)]
pub struct VaultDelegationList {
    /// The vault this operator list is associated with
    pub vault: Address,
    /// The list of delegations; an entry whose operator is the zero key is free
    pub delegations: Vec<OperatorDelegation>,
    /// The last slot the list was updated.
    /// Delegation information here is out of date if the last update epoch < current epoch
    pub last_slot_updated: u64,
    /// The bump seed for the PDA
    pub bump: u8,
}

/// Adds up the stake of the delegations (all of it, or the withdrawable part), failing
/// as soon as one record or the running sum leaves the range of a `u64`.
pub open spec fn total_walk(s: Seq<OperatorDelegation>, acc: int, withdrawable: bool) -> Result<int, VaultCoreError>
    decreases s.len(),
{
    if s.len() == 0 {
        Ok(acc)
    } else {
        let t = if withdrawable { s[0].withdrawable() } else { s[0].total() };
        if t > u64::MAX {
            Err(VaultCoreError::VaultOperatorActiveStakeOverflow)
        } else if acc + t > u64::MAX {
            Err(VaultCoreError::VaultDelegationListTotalDelegationOverflow)
        } else {
            total_walk(s.drop_first(), acc + t, withdrawable)
        }
    }
}

/// `i` is the first entry for the operator `key`.
pub open spec fn is_first(s: Seq<OperatorDelegation>, i: int, key: Seq<u8>) -> bool {
    &&& 0 <= i < s.len()
    &&& s[i].operator@ == key
    &&& forall|j: int| 0 <= j < i ==> s[j].operator@ != key
}

/// No entry is for the operator `key`.
pub open spec fn is_absent(s: Seq<OperatorDelegation>, key: Seq<u8>) -> bool {
    forall|j: int| 0 <= j < s.len() ==> s[j].operator@ != key
}

/// The entry after one epoch boundary, or after two or more.
pub open spec fn updated_entry(d: OperatorDelegation, twice: bool) -> OperatorDelegation {
    let once = OperatorDelegation {
        enqueued_for_cooldown_amount: 0,
        cooling_down_amount: d.enqueued_for_cooldown_amount,
        enqueued_for_withdraw_amount: 0,
        cooling_down_for_withdraw_amount: d.enqueued_for_withdraw_amount,
        ..d
    };
    if twice {
        OperatorDelegation {
            enqueued_for_cooldown_amount: 0,
            cooling_down_amount: 0,
            enqueued_for_withdraw_amount: 0,
            cooling_down_for_withdraw_amount: 0,
            ..d
        }
    } else {
        once
    }
}

/// The entry after the update, freed when it holds no stake any more.
pub open spec fn refreshed_entry(d: OperatorDelegation, twice: bool) -> OperatorDelegation {
    let u = updated_entry(d, twice);
    if u.holds_nothing() {
        OperatorDelegation {
            operator: zero_address(),
            staked_amount: 0,
            enqueued_for_cooldown_amount: 0,
            cooling_down_amount: 0,
            enqueued_for_withdraw_amount: 0,
            cooling_down_for_withdraw_amount: 0,
        }
    } else {
        u
    }
}

/// The stake an entry releases for withdrawal in the update.
pub open spec fn released_for_withdraw(d: OperatorDelegation, twice: bool) -> int {
    if twice {
        d.cooling_down_for_withdraw_amount + d.enqueued_for_withdraw_amount
    } else {
        d.cooling_down_for_withdraw_amount as int
    }
}

/// The sum of the stake released by the first `k` entries.
pub open spec fn released_prefix(s: Seq<OperatorDelegation>, k: int, twice: bool) -> int
    decreases k,
{
    if k <= 0 {
        0
    } else {
        released_prefix(s, k - 1, twice) + released_for_withdraw(s[k - 1], twice)
    }
}

/// The stake set aside for withdrawal in the first `k` entries: what is enqueued for
/// withdrawal and what is cooling down for withdrawal.
pub open spec fn withdraw_reserve_prefix(s: Seq<OperatorDelegation>, k: int) -> int
    decreases k,
{
    if k <= 0 {
        0
    } else {
        withdraw_reserve_prefix(s, k - 1) + s[k - 1].enqueued_for_withdraw_amount + s[k - 1].cooling_down_for_withdraw_amount
    }
}

/// The pro-rata undelegation walk from entry `k`, with `total` undelegated so far:
/// the final entries, and the amount undelegated or the error met.
pub open spec fn pro_rata_walk(s: Seq<OperatorDelegation>, k: int, total: int, amount: int, withdrawable: int) -> (Seq<OperatorDelegation>, Result<int, VaultCoreError>)
    decreases s.len() - k,
{
    if k < 0 || k >= s.len() {
        (s, Ok(total))
    } else {
        let d = s[k];
        let ds = d.withdrawable();
        if ds * amount > u64::MAX {
            (s, Err(VaultCoreError::ArithmeticOverflow))
        } else {
            let share = ceil_div(ds * amount, withdrawable);
            if share == 0 {
                pro_rata_walk(s, k + 1, total, amount, withdrawable)
            } else {
                let actual = smaller(share, amount - total);
                if d.enqueued_for_withdraw_amount + actual > u64::MAX {
                    (s.update(k, pulled_for_withdraw(d, actual)), Err(VaultCoreError::VaultDelegationOverflow))
                } else {
                    let s2 = s.update(k, undelegated_for_withdraw(d, actual));
                    if total + actual == amount {
                        (s2, Ok(total + actual))
                    } else {
                        pro_rata_walk(s2, k + 1, total + actual, amount, withdrawable)
                    }
                }
            }
        }
    }
}

/// The seeds of the delegation list of a vault.
pub open spec fn vault_delegation_list_seeds(vault: Seq<u8>) -> Seq<Seq<u8>> {
    seq!["vault_delegation_list".spec_bytes(), vault]
}

proof fn lemma_total_walk_step(s: Seq<OperatorDelegation>, i: int, acc: int, withdrawable: bool)
    requires
        0 <= i < s.len(),
    ensures
        total_walk(s.skip(i), acc, withdrawable) == ({
            let t = if withdrawable { s[i].withdrawable() } else { s[i].total() };
            if t > u64::MAX {
                Err(VaultCoreError::VaultOperatorActiveStakeOverflow)
            } else if acc + t > u64::MAX {
                Err(VaultCoreError::VaultDelegationListTotalDelegationOverflow)
            } else {
                total_walk(s.skip(i + 1), acc + t, withdrawable)
            }
        }),
{
    assert(s.skip(i).drop_first() =~= s.skip(i + 1));
}

impl VaultDelegationList {
    pub fn new(vault: Address, bump: u8) -> (r: Self)
        ensures
            r.vault == vault && r.bump == bump && r.delegations@.len() == 0 && r.last_slot_updated == 0,
    {
        Self { vault, delegations: Vec::new(), last_slot_updated: 0, bump }
    }

    pub fn vault(&self) -> (r: Address)
        ensures
            r == self.vault,
    {
        self.vault
    }

    /// The list of delegations.
    pub fn delegations(&self) -> (r: &[OperatorDelegation])
        ensures
            r@ == self.delegations@,
    {
        self.delegations.as_slice()
    }

    fn sum_security(&self, withdrawable: bool) -> (r: Result<u64, VaultCoreError>)
        ensures
            r is Ok <==> total_walk(self.delegations@, 0, withdrawable) is Ok,
            r matches Ok(t) ==> total_walk(self.delegations@, 0, withdrawable) == Ok::<int, VaultCoreError>(t as int),
            r matches Err(e) ==> total_walk(self.delegations@, 0, withdrawable) == Err::<int, VaultCoreError>(e),
    {
        let mut total: u64 = 0;
        let mut i: usize = 0;
        assert(self.delegations@.skip(0) =~= self.delegations@);
        while i < self.delegations.len()
            invariant
                i <= self.delegations@.len(),
                total_walk(self.delegations@, 0, withdrawable) == total_walk(self.delegations@.skip(i as int), total as int, withdrawable),
            decreases self.delegations@.len() - i,
        {
            proof {
                lemma_total_walk_step(self.delegations@, i as int, total as int, withdrawable);
            }
            let d = &self.delegations[i];
            let t = if withdrawable {
                d.withdrawable_security()
            } else {
                d.total_security()
            };
            let t = match t {
                Ok(t) => t,
                Err(e) => {
                    return Err(e);
                },
            };
            total = match total.checked_add(t) {
                Some(x) => x,
                None => {
                    return Err(VaultCoreError::VaultDelegationListTotalDelegationOverflow);
                },
            };
            i = i + 1;
        }
        assert(self.delegations@.skip(i as int).len() == 0);
        Ok(total)
    }

    /// Returns the total security in the delegation list.
    pub fn total_security(&self) -> (r: Result<u64, VaultCoreError>)
        ensures
            r is Ok <==> total_walk(self.delegations@, 0, false) is Ok,
            r matches Ok(t) ==> total_walk(self.delegations@, 0, false) == Ok::<int, VaultCoreError>(t as int),
            r matches Err(e) ==> total_walk(self.delegations@, 0, false) == Err::<int, VaultCoreError>(e),
    {
        self.sum_security(false)
    }

    /// The amount of security available for withdrawal: staked stake and stake cooling
    /// down that isn't set aside for withdrawal.
    pub fn withdrawable_security(&self) -> (r: Result<u64, VaultCoreError>)
        ensures
            r is Ok <==> total_walk(self.delegations@, 0, true) is Ok,
            r matches Ok(t) ==> total_walk(self.delegations@, 0, true) == Ok::<int, VaultCoreError>(t as int),
            r matches Err(e) ==> total_walk(self.delegations@, 0, true) == Err::<int, VaultCoreError>(e),
    {
        self.sum_security(true)
    }

    /// Whether an epoch boundary has passed since the last update.
    pub fn is_update_needed(&self, slot: u64, epoch_length: u64) -> (r: bool)
        requires
            epoch_length > 0,
        ensures
            r == (self.last_slot_updated / epoch_length < slot / epoch_length),
    {
        let last_updated_epoch = self.last_slot_updated / epoch_length;
        let current_epoch = slot / epoch_length;
        last_updated_epoch < current_epoch
    }

    /// Fails when the list needs an update.
    pub fn check_update_needed(&self, slot: u64, epoch_length: u64) -> (r: Result<(), VaultCoreError>)
        requires
            epoch_length > 0,
        ensures
            r is Ok <==> self.last_slot_updated / epoch_length >= slot / epoch_length,
            r matches Err(e) ==> e == VaultCoreError::VaultDelegationListUpdateRequired,
    {
        if self.is_update_needed(slot, epoch_length) {
            Err(VaultCoreError::VaultDelegationListUpdateRequired)
        } else {
            Ok(())
        }
    }

    /// Updates every delegation to the epoch of `slot` and frees the entries left without
    /// stake; returns the stake released for withdrawal.
    #[verifier::rlimit(60)]
    pub fn update(&mut self, slot: u64, epoch_length: u64) -> (r: Result<VaultDelegationUpdateSummary, VaultCoreError>)
        requires
            epoch_length > 0,
            old(self).last_slot_updated / epoch_length <= slot / epoch_length,
        ensures
            ({
                let epochs = slot / epoch_length - old(self).last_slot_updated / epoch_length;
                let twice = epochs >= 2;
                let n = old(self).delegations@.len() as int;
                &&& epochs == 0 ==> r == Ok::<VaultDelegationUpdateSummary, VaultCoreError>(VaultDelegationUpdateSummary::NotUpdated) && *final(self) == *old(self)
                &&& epochs > 0 ==> (r is Ok <==> forall|k: int| 0 <= k <= n ==> released_prefix(old(self).delegations@, k, twice) <= u64::MAX)
                &&& epochs > 0 && r is Ok ==> {
                    &&& r == Ok::<VaultDelegationUpdateSummary, VaultCoreError>(VaultDelegationUpdateSummary::Updated {
                        amount_reserved_for_withdraw: released_prefix(old(self).delegations@, n, twice) as u64,
                    })
                    &&& final(self).delegations@ == old(self).delegations@.map_values(|d: OperatorDelegation| refreshed_entry(d, twice))
                    &&& final(self).last_slot_updated == slot
                    &&& final(self).vault == old(self).vault && final(self).bump == old(self).bump
                }
                &&& epochs > 0 ==> (r matches Ok(VaultDelegationUpdateSummary::Updated { amount_reserved_for_withdraw: a })
                    ==> a + withdraw_reserve_prefix(final(self).delegations@, n) == withdraw_reserve_prefix(old(self).delegations@, n)
                        && (twice ==> a == withdraw_reserve_prefix(old(self).delegations@, n)))
                &&& r matches Err(e) ==> {
                    &&& e == VaultCoreError::VaultDelegationListUpdateOverflow
                    &&& *final(self) == (VaultDelegationList { delegations: final(self).delegations, ..*old(self) })
                    &&& exists|k: int| 0 <= k < n && released_prefix(old(self).delegations@, k, twice) <= u64::MAX
                        && released_prefix(old(self).delegations@, k + 1, twice) > u64::MAX
                        && final(self).delegations@ == old(self).delegations@.take(k).map_values(|d: OperatorDelegation| refreshed_entry(d, twice))
                            .push(updated_entry(old(self).delegations@[k], twice)).add(old(self).delegations@.skip(k + 1))
                }
            }),
    {
        let last_epoch_update = self.last_slot_updated / epoch_length;
        let current_epoch = slot / epoch_length;
        let epoch_diff = current_epoch - last_epoch_update;
        if epoch_diff == 0 {
            return Ok(VaultDelegationUpdateSummary::NotUpdated);
        }
        let twice = epoch_diff >= 2;
        let ghost old_s = self.delegations@;
        let ghost n = old_s.len() as int;
        let mut amount_reserved_for_withdraw: u64 = 0;
        let mut i: usize = 0;
        while i < self.delegations.len()
            invariant
                i <= self.delegations@.len(),
                self.delegations@.len() == n,
                n == old_s.len(),
                twice == (slot / epoch_length - old(self).last_slot_updated / epoch_length >= 2),
                slot / epoch_length - old(self).last_slot_updated / epoch_length >= 1,
                amount_reserved_for_withdraw == released_prefix(old_s, i as int, twice),
                forall|k: int| 0 <= k <= i ==> released_prefix(old_s, k, twice) <= u64::MAX,
                self.delegations@ == old_s.take(i as int).map_values(|d: OperatorDelegation| refreshed_entry(d, twice)).add(old_s.skip(i as int)),
                self.vault == old(self).vault && self.bump == old(self).bump && self.last_slot_updated == old(self).last_slot_updated,
                old_s == old(self).delegations@,
            decreases n - i,
        {
            let ghost before = self.delegations@;
            let mut d = self.delegations[i];
            assert(d == old_s[i as int]) by {
                assert(old_s.skip(i as int)[0] == old_s[i as int]);
            }
            let released: u64 = if twice {
                let a1 = d.update();
                let a2 = d.update();
                match amount_reserved_for_withdraw.checked_add(a1) {
                    Some(x) => match x.checked_add(a2) {
                        Some(y) => y,
                        None => {
                            self.delegations.set(i, d);
                            proof {
                                self.lemma_update_error_shape(old_s, i as int, twice, before);
                                assert(released_prefix(old_s, i as int + 1, twice) == released_prefix(old_s, i as int, twice)
                                    + released_for_withdraw(old_s[i as int], twice));
                            }
                            return Err(VaultCoreError::VaultDelegationListUpdateOverflow);
                        },
                    },
                    None => {
                        self.delegations.set(i, d);
                        proof {
                            self.lemma_update_error_shape(old_s, i as int, twice, before);
                            assert(released_prefix(old_s, i as int + 1, twice) == released_prefix(old_s, i as int, twice)
                                + released_for_withdraw(old_s[i as int], twice));
                        }
                        return Err(VaultCoreError::VaultDelegationListUpdateOverflow);
                    },
                }
            } else {
                let a1 = d.update();
                match amount_reserved_for_withdraw.checked_add(a1) {
                    Some(x) => x,
                    None => {
                        self.delegations.set(i, d);
                        proof {
                            self.lemma_update_error_shape(old_s, i as int, twice, before);
                            assert(released_prefix(old_s, i as int + 1, twice) == released_prefix(old_s, i as int, twice)
                                + released_for_withdraw(old_s[i as int], twice));
                        }
                        return Err(VaultCoreError::VaultDelegationListUpdateOverflow);
                    },
                }
            };
            amount_reserved_for_withdraw = released;
            if d.is_empty() {
                d = OperatorDelegation::default();
                proof {
                    lemma_zero_address();
                    lemma_address_view_injective(d.operator, zero_address());
                }
                assert(d == refreshed_entry(old_s[i as int], twice));
            }
            self.delegations.set(i, d);
            assert(self.delegations@ =~= old_s.take(i + 1).map_values(|d: OperatorDelegation| refreshed_entry(d, twice)).add(old_s.skip(i + 1)));
            i = i + 1;
        }
        assert(old_s.take(n) =~= old_s);
        assert(self.delegations@ =~= old_s.map_values(|d: OperatorDelegation| refreshed_entry(d, twice)));
        self.last_slot_updated = slot;
        proof {
            lemma_update_conserves_withdraw_reserve(old_s, twice, n);
        }
        Ok(VaultDelegationUpdateSummary::Updated { amount_reserved_for_withdraw })
    }

    proof fn lemma_update_error_shape(&self, old_s: Seq<OperatorDelegation>, i: int, twice: bool, before: Seq<OperatorDelegation>)
        requires
            0 <= i < old_s.len(),
            before == old_s.take(i).map_values(|d: OperatorDelegation| refreshed_entry(d, twice)).add(old_s.skip(i)),
            self.delegations@ == before.update(i, updated_entry(old_s[i], twice)),
        ensures
            self.delegations@ == old_s.take(i).map_values(|d: OperatorDelegation| refreshed_entry(d, twice)).push(updated_entry(old_s[i], twice)).add(old_s.skip(i + 1)),
    {
        assert(self.delegations@ =~= old_s.take(i).map_values(|d: OperatorDelegation| refreshed_entry(d, twice)).push(updated_entry(old_s[i], twice)).add(old_s.skip(i + 1)));
    }

    /// There is only one first entry for an operator.
    proof fn lemma_first_unique(s: Seq<OperatorDelegation>, i: int, j: int, key: Seq<u8>)
        requires
            is_first(s, i, key),
            is_first(s, j, key),
        ensures
            i == j,
    {
        if i < j {
            assert(s[i].operator@ != key);
        } else if j < i {
            assert(s[j].operator@ != key);
        }
    }

    /// The first entry for the operator `key`, if any.
    fn find_operator(&self, key: &Address) -> (r: Option<usize>)
        ensures
            r matches Some(i) ==> is_first(self.delegations@, i as int, key@),
            r is None ==> is_absent(self.delegations@, key@),
    {
        let mut i: usize = 0;
        while i < self.delegations.len()
            invariant
                i <= self.delegations@.len(),
                forall|j: int| 0 <= j < i ==> self.delegations@[j].operator@ != key@,
            decreases self.delegations@.len() - i,
        {
            if self.delegations[i].operator.equals(key) {
                return Some(i);
            }
            i = i + 1;
        }
        None
    }

    /// Delegates `amount` of stake to an operator, so that the delegated stake stays within
    /// `max_delegation_amount`. A new operator takes the first free entry, or a new one.
    pub fn delegate(&mut self, operator: Address, amount: u64, max_delegation_amount: u64) -> (r: Result<(), VaultCoreError>)
        ensures
            ({
                let s = old(self).delegations@;
                let fresh = OperatorDelegation {
                    operator,
                    staked_amount: amount,
                    enqueued_for_cooldown_amount: 0,
                    cooling_down_amount: 0,
                    enqueued_for_withdraw_amount: 0,
                    cooling_down_for_withdraw_amount: 0,
                };
                match total_walk(s, 0, false) {
                    Err(e) => r == Err::<(), VaultCoreError>(e) && *final(self) == *old(self),
                    Ok(delegated) => if delegated > max_delegation_amount || amount > max_delegation_amount - delegated {
                        r == Err::<(), VaultCoreError>(VaultCoreError::VaultDelegationListInsufficientSecurity) && *final(self) == *old(self)
                    } else {
                        &&& forall|i: int| is_first(s, i, operator@) ==> (if s[i].staked_amount + amount > u64::MAX {
                            r == Err::<(), VaultCoreError>(VaultCoreError::VaultDelegationOverflow) && *final(self) == *old(self)
                        } else {
                            r is Ok && final(self).delegations@ == s.update(i, OperatorDelegation {
                                staked_amount: (s[i].staked_amount + amount) as u64,
                                ..s[i]
                            })
                        })
                        &&& is_absent(s, operator@) ==> {
                            &&& forall|j: int| is_first(s, j, zero_key()) ==> r is Ok && final(self).delegations@ == s.update(j, fresh)
                            &&& is_absent(s, zero_key()) ==> (if s.len() < MAX_DELEGATIONS {
                                r is Ok && final(self).delegations@ == s.push(fresh)
                            } else {
                                r == Err::<(), VaultCoreError>(VaultCoreError::VaultDelegationListFull) && *final(self) == *old(self)
                            })
                        }
                        &&& r is Ok ==> *final(self) == (VaultDelegationList { delegations: final(self).delegations, ..*old(self) })
                    },
                }
            }),
    {
        let delegated_security = match self.total_security() {
            Ok(t) => t,
            Err(e) => {
                return Err(e);
            },
        };
        if max_delegation_amount < delegated_security {
            return Err(VaultCoreError::VaultDelegationListInsufficientSecurity);
        }
        let security_available_for_delegation = max_delegation_amount - delegated_security;
        if amount > security_available_for_delegation {
            return Err(VaultCoreError::VaultDelegationListInsufficientSecurity);
        }
        match self.find_operator(&operator) {
            Some(i) => {
                let mut d = self.delegations[i];
                match d.delegate(amount) {
                    Ok(()) => {},
                    Err(e) => {
                        return Err(e);
                    },
                }
                self.delegations.set(i, d);
            },
            None => {
                let mut delegation = OperatorDelegation::new(operator);
                match delegation.delegate(amount) {
                    Ok(()) => {},
                    Err(e) => {
                        return Err(e);
                    },
                }
                let zero = Address::default();
                match self.find_operator(&zero) {
                    Some(j) => {
                        self.delegations.set(j, delegation);
                    },
                    None => {
                        if self.delegations.len() < MAX_DELEGATIONS {
                            self.delegations.push(delegation);
                        } else {
                            return Err(VaultCoreError::VaultDelegationListFull);
                        }
                    },
                }
            },
        }
        Ok(())
    }

    /// Undelegates an amount of stake from the vault for withdrawal.
    pub fn undelegate_for_withdrawal(&mut self, amount: u64, method: UndelegateForWithdrawMethod) -> (r: Result<(), VaultCoreError>)
        ensures
            r == pro_rata_outcome(*old(self), amount as int),
            final(self).delegations@ == pro_rata_final(*old(self), amount as int),
            *final(self) == (VaultDelegationList { delegations: final(self).delegations, ..*old(self) }),
    {
        match method {
            UndelegateForWithdrawMethod::ProRata => self.undelegate_for_withdrawal_pro_rata(amount),
        }
    }

    /// Undelegates `amount` from the operators in proportion to the withdrawable security
    /// of each one (rounded up), taking no more than what remains to undelegate.
    #[verifier::rlimit(80)]
    pub fn undelegate_for_withdrawal_pro_rata(&mut self, amount: u64) -> (r: Result<(), VaultCoreError>)
        ensures
            r == pro_rata_outcome(*old(self), amount as int),
            final(self).delegations@ == pro_rata_final(*old(self), amount as int),
            *final(self) == (VaultDelegationList { delegations: final(self).delegations, ..*old(self) }),
    {
        let withdrawable_assets = match self.withdrawable_security() {
            Ok(w) => w,
            Err(e) => {
                return Err(e);
            },
        };
        if amount > withdrawable_assets || withdrawable_assets == 0 {
            return Err(VaultCoreError::WithdrawAmountExceedsDelegatedFunds);
        }
        let ghost old_s = self.delegations@;
        let ghost w = withdrawable_assets as int;
        let ghost a = amount as int;
        let mut total_undelegated: u64 = 0;
        let mut i: usize = 0;
        proof {
            lemma_pro_rata_completes(old_s, a, w);
        }
        while i < self.delegations.len()
            invariant
                i <= self.delegations@.len(),
                self.delegations@.len() == old_s.len(),
                old_s == old(self).delegations@,
                total_walk(old_s, 0, true) == Ok::<int, VaultCoreError>(w),
                w == withdrawable_assets,
                0 < w,
                a == amount,
                a <= w,
                total_undelegated <= amount,
                total_undelegated < amount || amount == 0,
                pro_rata_walk(old_s, 0, 0, a, w) == pro_rata_walk(self.delegations@, i as int, total_undelegated as int, a, w),
                forall|j: int| i <= j < self.delegations@.len() ==> self.delegations@[j] == old_s[j],
                *self == (VaultDelegationList { delegations: self.delegations, ..*old(self) }),
            decreases self.delegations@.len() - i,
        {
            let d = self.delegations[i];
            proof {
                lemma_walk_entry_bounded(old_s, i as int, w);
            }
            let delegated_security = match d.withdrawable_security() {
                Ok(x) => x,
                Err(e) => {
                    assert(false);
                    return Err(e);
                },
            };
            let product = match delegated_security.checked_mul(amount) {
                Some(p) => p,
                None => {
                    return Err(VaultCoreError::ArithmeticOverflow);
                },
            };
            let undelegate_amount = ceil_div_u128(product as u128, withdrawable_assets as u128) as u64;
            proof {
                crate::math::lemma_ceil_div(product as int, w);
            }
            if undelegate_amount > 0 {
                let left = amount - total_undelegated;
                let actual_undelegate = if undelegate_amount <= left {
                    undelegate_amount
                } else {
                    left
                };
                let mut d2 = d;
                let res = d2.undelegate_for_withdraw(actual_undelegate);
                proof {
                    lemma_share_within_withdrawable(delegated_security as int, a, w);
                }
                match res {
                    Ok(()) => {},
                    Err(e) => {
                        self.delegations.set(i, d2);
                        return Err(e);
                    },
                }
                self.delegations.set(i, d2);
                total_undelegated = total_undelegated + actual_undelegate;
                if total_undelegated == amount {
                    return Ok(());
                }
            }
            i = i + 1;
        }
        if total_undelegated != amount {
            return Err(VaultCoreError::UndelegationIncomplete);
        }
        Ok(())
    }

    /// Undelegates an amount of stake from an operator.
    pub fn undelegate(&mut self, operator: Address, amount: u64) -> (r: Result<(), ProgramError>)
        ensures
            ({
                let s = old(self).delegations@;
                &&& is_absent(s, operator@) ==> r == Err::<(), ProgramError>(ProgramError::InvalidArgument) && *final(self) == *old(self)
                &&& forall|i: int| is_first(s, i, operator@) ==> (if amount > s[i].staked_amount {
                    r == Err::<(), ProgramError>(ProgramError::Custom(0)) && final(self).delegations@ == s
                } else if s[i].enqueued_for_cooldown_amount + amount > u64::MAX {
                    r == Err::<(), ProgramError>(ProgramError::Custom(0)) && final(self).delegations@ == s.update(i, OperatorDelegation {
                        staked_amount: (s[i].staked_amount - amount) as u64,
                        ..s[i]
                    })
                } else {
                    r is Ok && final(self).delegations@ == s.update(i, OperatorDelegation {
                        staked_amount: (s[i].staked_amount - amount) as u64,
                        enqueued_for_cooldown_amount: (s[i].enqueued_for_cooldown_amount + amount) as u64,
                        ..s[i]
                    })
                })
                &&& *final(self) == (VaultDelegationList { delegations: final(self).delegations, ..*old(self) })
            }),
    {
        match self.find_operator(&operator) {
            Some(i) => {
                proof {
                    assert forall|j: int| is_first(old(self).delegations@, j, operator@) implies j == i by {
                        Self::lemma_first_unique(old(self).delegations@, i as int, j, operator@);
                    }
                }
                let mut d = self.delegations[i];
                let res = d.undelegate(amount);
                match res {
                    Ok(()) => {
                        self.delegations.set(i, d);
                        Ok(())
                    },
                    Err(e) => {
                        self.delegations.set(i, d);
                        proof {
                            if amount > old(self).delegations@[i as int].staked_amount {
                                assert(self.delegations@ =~= old(self).delegations@);
                            }
                        }
                        Err(ProgramError::from(e))
                    },
                }
            },
            None => Err(ProgramError::InvalidArgument),
        }
    }

    /// Slashes the operator's delegation by `slash_amount`.
    pub fn slash(&mut self, operator: &Address, slash_amount: u64) -> (r: Result<(), VaultCoreError>)
        ensures
            ({
                let s = old(self).delegations@;
                &&& is_absent(s, operator@) ==> r == Err::<(), VaultCoreError>(VaultCoreError::VaultOperatorNotFound) && *final(self) == *old(self)
                &&& forall|i: int| is_first(s, i, operator@) ==> (if s[i].total() > u64::MAX {
                    r == Err::<(), VaultCoreError>(VaultCoreError::VaultOperatorActiveStakeOverflow) && *final(self) == *old(self)
                } else if slash_amount > s[i].total() {
                    r == Err::<(), VaultCoreError>(VaultCoreError::VaultSlashingUnderflow) && *final(self) == *old(self)
                } else {
                    r is Ok && final(self).delegations@ == s.update(i, pro_rata_slashed(s[i], slash_amount as int))
                })
                &&& *final(self) == (VaultDelegationList { delegations: final(self).delegations, ..*old(self) })
            }),
    {
        match self.find_operator(operator) {
            Some(i) => {
                let mut d = self.delegations[i];
                match d.slash(slash_amount) {
                    Ok(()) => {
                        self.delegations.set(i, d);
                        Ok(())
                    },
                    Err(e) => Err(e),
                }
            },
            None => Err(VaultCoreError::VaultOperatorNotFound),
        }
    }

    /// The seeds of the delegation list of a vault.
    pub fn seeds(vault: &Address) -> (r: Vec<Vec<u8>>)
        ensures
            r.deep_view() == vault_delegation_list_seeds(vault@),
    {
        let mut r: Vec<Vec<u8>> = Vec::new();
        r.push(seed_from_str("vault_delegation_list"));
        let v = vault.to_vec();
        proof {
            lemma_bytes_deep_view(v);
        }
        r.push(v);
        assert(r.deep_view() =~= vault_delegation_list_seeds(vault@));
        r
    }

    /// The program address of the list, its bump seed and its seeds.
    pub fn find_program_address(program_id: &Address, vault: &Address) -> (r: Option<(Address, u8, Vec<Vec<u8>>)>)
        ensures
            found_program_address(vault_delegation_list_seeds(vault@), program_id@) matches Some((k, b)) ==> (r matches Some(t)
                && t.0@ == k && t.1 == b && t.2.deep_view() == vault_delegation_list_seeds(vault@)),
            found_program_address(vault_delegation_list_seeds(vault@), program_id@) is None ==> r is None,
    {
        let seeds = Self::seeds(vault);
        match try_find_program_address(&seeds, program_id) {
            Some((key, bump)) => Some((key, bump, seeds)),
            None => None,
        }
    }
}

/// The outcome of a pro-rata undelegation of `amount`.
pub open spec fn pro_rata_outcome(l: VaultDelegationList, amount: int) -> Result<(), VaultCoreError> {
    match total_walk(l.delegations@, 0, true) {
        Err(e) => Err(e),
        Ok(w) => if amount > w || w == 0 {
            Err(VaultCoreError::WithdrawAmountExceedsDelegatedFunds)
        } else {
            match pro_rata_walk(l.delegations@, 0, 0, amount, w).1 {
                Err(e) => Err(e),
                Ok(t) => if t == amount {
                    Ok(())
                } else {
                    Err(VaultCoreError::UndelegationIncomplete)
                },
            }
        },
    }
}

/// The entries after a pro-rata undelegation of `amount`.
pub open spec fn pro_rata_final(l: VaultDelegationList, amount: int) -> Seq<OperatorDelegation> {
    match total_walk(l.delegations@, 0, true) {
        Err(_) => l.delegations@,
        Ok(w) => if amount > w || w == 0 {
            l.delegations@
        } else {
            pro_rata_walk(l.delegations@, 0, 0, amount, w).0
        },
    }
}

/// The withdrawable stake of the first `k` entries.
pub open spec fn withdrawable_prefix(s: Seq<OperatorDelegation>, k: int) -> int
    decreases k,
{
    if k <= 0 {
        0
    } else {
        withdrawable_prefix(s, k - 1) + s[k - 1].withdrawable()
    }
}

/// The pro-rata shares, rounded up, of the first `k` entries.
pub open spec fn share_prefix(s: Seq<OperatorDelegation>, k: int, amount: int, withdrawable: int) -> int
    decreases k,
{
    if k <= 0 {
        0
    } else {
        share_prefix(s, k - 1, amount, withdrawable) + ceil_div(s[k - 1].withdrawable() * amount, withdrawable)
    }
}

/// A successful walk over the entries from `k` adds their withdrawable stake to `acc`.
proof fn lemma_total_walk_sum(s: Seq<OperatorDelegation>, k: int, acc: int, w: int)
    requires
        0 <= k <= s.len(),
        total_walk(s.skip(k), acc, true) == Ok::<int, VaultCoreError>(w),
    ensures
        w == acc + withdrawable_prefix(s, s.len() as int) - withdrawable_prefix(s, k),
        w >= acc,
        forall|j: int| k <= j < s.len() ==> 0 <= #[trigger] s[j].withdrawable() <= w - acc,
    decreases s.len() - k,
{
    if k == s.len() {
        assert(s.skip(k).len() == 0);
    } else {
        lemma_total_walk_step(s, k, acc, true);
        let t = s[k].withdrawable();
        lemma_total_walk_sum(s, k + 1, acc + t, w);
    }
}

proof fn lemma_walk_entry_bounded(s: Seq<OperatorDelegation>, i: int, w: int)
    requires
        0 <= i < s.len(),
        total_walk(s, 0, true) == Ok::<int, VaultCoreError>(w),
    ensures
        s[i].withdrawable() <= w,
{
    assert(s.skip(0) =~= s);
    lemma_total_walk_sum(s, 0, 0, w);
}

proof fn lemma_share_within_withdrawable(ds: int, a: int, w: int)
    requires
        0 <= ds <= w,
        0 <= a <= w,
        w > 0,
    ensures
        ceil_div(ds * a, w) <= ds,
{
    crate::operator_delegation::lemma_share_bounds(ds, a, w);
}

/// The rounded-up shares cover at least the exact pro-rata amounts.
proof fn lemma_share_prefix(s: Seq<OperatorDelegation>, k: int, a: int, w: int)
    requires
        0 <= k <= s.len(),
        forall|j: int| 0 <= j < s.len() ==> 0 <= #[trigger] s[j].withdrawable() <= w,
        0 <= a <= w,
        w > 0,
    ensures
        share_prefix(s, k, a, w) * w >= withdrawable_prefix(s, k) * a,
        share_prefix(s, k, a, w) >= 0,
    decreases k,
{
    if k > 0 {
        lemma_share_prefix(s, k - 1, a, w);
        let ds = s[k - 1].withdrawable();
        crate::operator_delegation::lemma_share_bounds(ds, a, w);
        let p = ceil_div(ds * a, w);
        let sp = share_prefix(s, k - 1, a, w);
        let wp = withdrawable_prefix(s, k - 1);
        assert((sp + p) * w >= (wp + ds) * a) by (nonlinear_arith)
            requires
                sp * w >= wp * a,
                p * w >= ds * a,
        ;
    }
}

/// The walk from entry `k`, with the shares of the entries before it taken in full and
/// still short of the amount, never ends with an amount other than the one asked for.
proof fn lemma_walk_completes(orig: Seq<OperatorDelegation>, cur: Seq<OperatorDelegation>, k: int, a: int, w: int)
    requires
        0 <= k <= orig.len(),
        cur.len() == orig.len(),
        forall|j: int| k <= j < orig.len() ==> cur[j] == orig[j],
        forall|j: int| 0 <= j < orig.len() ==> 0 <= #[trigger] orig[j].withdrawable() <= w,
        share_prefix(orig, orig.len() as int, a, w) >= a,
        share_prefix(orig, k, a, w) < a || (a == 0 && share_prefix(orig, k, a, w) == 0),
        0 <= a <= w,
        w > 0,
    ensures
        pro_rata_walk(cur, k, share_prefix(orig, k, a, w), a, w).1 matches Ok(t) ==> t == a,
    decreases orig.len() - k,
{
    let total = share_prefix(orig, k, a, w);
    if k < orig.len() {
        let d = cur[k];
        let ds = d.withdrawable();
        crate::operator_delegation::lemma_share_bounds(ds, a, w);
        let share = ceil_div(ds * a, w);
        if a == 0 {
            assert(ds * a == 0);
            assert(ceil_div(0, w) == 0) by (nonlinear_arith)
                requires
                    w > 0,
            ;
        }
        if ds * a > u64::MAX {
        } else if share == 0 {
            lemma_walk_completes(orig, cur, k + 1, a, w);
        } else {
            let actual = smaller(share, a - total);
            if d.enqueued_for_withdraw_amount + actual > u64::MAX {
            } else {
                let s2 = cur.update(k, undelegated_for_withdraw(d, actual));
                if total + actual == a {
                } else {
                    assert(actual == share);
                    lemma_walk_completes(orig, s2, k + 1, a, w);
                }
            }
        }
    }
}

proof fn lemma_pro_rata_completes(s: Seq<OperatorDelegation>, a: int, w: int)
    requires
        total_walk(s, 0, true) == Ok::<int, VaultCoreError>(w),
        0 <= a <= w,
        w > 0,
    ensures
        pro_rata_walk(s, 0, 0, a, w).1 matches Ok(t) ==> t == a,
{
    assert(s.skip(0) =~= s);
    lemma_total_walk_sum(s, 0, 0, w);
    lemma_share_prefix(s, s.len() as int, a, w);
    let sp = share_prefix(s, s.len() as int, a, w);
    assert(sp >= a) by (nonlinear_arith)
        requires
            sp * w >= w * a,
            w > 0,
    ;
    lemma_walk_completes(s, s, 0, a, w);
}

/// The total stake of the first `k` entries.
pub open spec fn total_prefix(s: Seq<OperatorDelegation>, k: int) -> int
    decreases k,
{
    if k <= 0 {
        0
    } else {
        total_prefix(s, k - 1) + s[k - 1].total()
    }
}

/// Replacing entry `k` changes the sums of the first `n` entries by the difference.
proof fn lemma_prefix_update(s: Seq<OperatorDelegation>, k: int, e: OperatorDelegation, n: int)
    requires
        0 <= k < n <= s.len(),
    ensures
        withdrawable_prefix(s.update(k, e), n) == withdrawable_prefix(s, n) - s[k].withdrawable() + e.withdrawable(),
        total_prefix(s.update(k, e), n) == total_prefix(s, n) - s[k].total() + e.total(),
    decreases n,
{
    if n - 1 > k {
        lemma_prefix_update(s, k, e, n - 1);
    } else {
        lemma_prefix_unchanged(s, s.update(k, e), k);
    }
}

/// Sequences that agree on their first `k` entries have the same sums over them.
proof fn lemma_prefix_unchanged(s: Seq<OperatorDelegation>, t: Seq<OperatorDelegation>, k: int)
    requires
        0 <= k <= s.len(),
        k <= t.len(),
        forall|j: int| 0 <= j < k ==> s[j] == t[j],
    ensures
        withdrawable_prefix(s, k) == withdrawable_prefix(t, k),
        total_prefix(s, k) == total_prefix(t, k),
    decreases k,
{
    if k > 0 {
        lemma_prefix_unchanged(s, t, k - 1);
    }
}

/// Undelegating for withdrawal takes the amount from the withdrawable stake and keeps
/// the entry's total.
proof fn lemma_undelegated_amounts(d: OperatorDelegation, x: int)
    requires
        0 <= x <= d.withdrawable(),
        d.enqueued_for_withdraw_amount + x <= u64::MAX,
    ensures
        undelegated_for_withdraw(d, x).withdrawable() == d.withdrawable() - x,
        undelegated_for_withdraw(d, x).total() == d.total(),
        undelegated_for_withdraw(d, x).operator == d.operator,
{
}

/// A pro-rata walk from entry `k` that succeeds moves the amount it undelegates out of
/// the withdrawable stake and keeps the total stake and the operators.
proof fn lemma_walk_moves(s: Seq<OperatorDelegation>, k: int, t: int, a: int, w: int)
    requires
        0 <= k,
        forall|j: int| k <= j < s.len() ==> 0 <= #[trigger] s[j].withdrawable() <= w,
        0 <= t <= a <= w,
        w > 0,
        pro_rata_walk(s, k, t, a, w).1 is Ok,
    ensures
        ({
            let (s2, r) = pro_rata_walk(s, k, t, a, w);
            &&& s2.len() == s.len()
            &&& withdrawable_prefix(s2, s.len() as int) == withdrawable_prefix(s, s.len() as int) - (r->Ok_0 - t)
            &&& total_prefix(s2, s.len() as int) == total_prefix(s, s.len() as int)
            &&& forall|j: int| 0 <= j < s.len() ==> #[trigger] s2[j].operator == s[j].operator
            &&& t <= r->Ok_0 <= a
        }),
    decreases s.len() - k,
{
    if k < s.len() {
        let d = s[k];
        let ds = d.withdrawable();
        crate::operator_delegation::lemma_share_bounds(ds, a, w);
        if ds * a <= u64::MAX {
            let share = ceil_div(ds * a, w);
            if share == 0 {
                lemma_walk_moves(s, k + 1, t, a, w);
            } else {
                let actual = smaller(share, a - t);
                if d.enqueued_for_withdraw_amount + actual <= u64::MAX {
                    let e = undelegated_for_withdraw(d, actual);
                    let s2 = s.update(k, e);
                    lemma_undelegated_amounts(d, actual);
                    lemma_prefix_update(s, k, e, s.len() as int);
                    if t + actual != a {
                        lemma_walk_moves(s2, k + 1, t + actual, a, w);
                    }
                }
            }
        }
    }
}

/// A pro-rata undelegation that succeeds takes exactly the amount out of the operators'
/// withdrawable stake and keeps the total delegated stake, since what it takes is enqueued
/// for withdrawal; the operators stay where they are.
pub proof fn lemma_pro_rata_undelegation_moves_amount(l: VaultDelegationList, amount: u64)
    requires
        pro_rata_outcome(l, amount as int) is Ok,
    ensures
        ({
            let s = l.delegations@;
            let s2 = pro_rata_final(l, amount as int);
            &&& s2.len() == s.len()
            &&& withdrawable_prefix(s2, s.len() as int) == withdrawable_prefix(s, s.len() as int) - amount
            &&& total_prefix(s2, s.len() as int) == total_prefix(s, s.len() as int)
            &&& forall|j: int| 0 <= j < s.len() ==> #[trigger] s2[j].operator == s[j].operator
        }),
{
    let s = l.delegations@;
    let w = total_walk(s, 0, true)->Ok_0;
    assert(s.skip(0) =~= s);
    lemma_total_walk_sum(s, 0, 0, w);
    lemma_walk_moves(s, 0, 0, amount as int, w);
}

/// An epoch update loses none of the stake set aside for withdrawal: over the first `k`
/// entries, what the update reports released plus what stays enqueued or cooling down for
/// withdrawal equals what was enqueued or cooling down for withdrawal before. After two or
/// more epochs nothing stays, so everything set aside is reported released.
pub proof fn lemma_update_conserves_withdraw_reserve(s: Seq<OperatorDelegation>, twice: bool, k: int)
    requires
        0 <= k <= s.len(),
    ensures
        released_prefix(s, k, twice) + withdraw_reserve_prefix(s.map_values(|d: OperatorDelegation| refreshed_entry(d, twice)), k)
            == withdraw_reserve_prefix(s, k),
        twice ==> withdraw_reserve_prefix(s.map_values(|d: OperatorDelegation| refreshed_entry(d, twice)), k) == 0,
        twice ==> released_prefix(s, k, twice) == withdraw_reserve_prefix(s, k),
    decreases k,
{
    if k > 0 {
        lemma_update_conserves_withdraw_reserve(s, twice, k - 1);
        let m = s.map_values(|d: OperatorDelegation| refreshed_entry(d, twice));
        assert(m[k - 1] == refreshed_entry(s[k - 1], twice));
    }
}

} // verus!
