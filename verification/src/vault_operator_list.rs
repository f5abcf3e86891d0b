//! The operators a vault delegates to, each with its active stake and the stake cooling
//! down in the current epoch.
use vstd::prelude::*;
use vstd::string::*;
use crate::address::{Address, found_program_address, seed_from_str, try_find_program_address, lemma_bytes_deep_view};
use crate::error::ProgramError;
use crate::slot_toggle::SlotToggle;

verus! {

/// An operator of the vault and the stake delegated to it.
#[derive(Debug, Clone, Copy)]
pub struct VaultOperator {
    pub operator: Address,
    /// When the operator was added to and removed from the vault.
    pub state: SlotToggle,
    /// The stake active on the operator.
    pub active_amount: u64,
    /// The stake cooling down from the operator in the current epoch.
    pub cooling_down_amount: u64,
}

impl VaultOperator {
    /// An operator added at `slot_added`, with no stake.
    pub fn new(operator: Address, slot_added: u64) -> (r: Self)
        ensures
            r.operator == operator && r.active_amount == 0 && r.cooling_down_amount == 0,
            r.state == (SlotToggle { slot_added, slot_removed: 0 }),
    {
        Self { operator, state: SlotToggle { slot_added, slot_removed: 0 }, active_amount: 0, cooling_down_amount: 0 }
    }

    pub fn operator(&self) -> (r: Address)
        ensures
            r == self.operator,
    {
        self.operator
    }

    pub fn state(&self) -> (r: &SlotToggle)
        ensures
            *r == self.state,
    {
        &self.state
    }

    pub fn active_amount(&self) -> (r: u64)
        ensures
            r == self.active_amount,
    {
        self.active_amount
    }

    pub fn cooling_down_amount(&self) -> (r: u64)
        ensures
            r == self.cooling_down_amount,
    {
        self.cooling_down_amount
    }
}

/// The operators of a vault.
#[derive(Debug, Clone)]
pub struct VaultOperatorList {
    pub vault: Address,
    pub operator_list: Vec<VaultOperator>,
    /// The last slot the cooling-down stake was released.
    pub last_slot_updated: u64,
    pub bump: u8,
}

/// The stake delegated to the operators from entry `i` on, added to `acc`, or `None`
/// when a running sum leaves the range of a `u64`.
pub open spec fn delegation_from(s: Seq<VaultOperator>, i: int, acc: int) -> Option<int>
    decreases s.len() - i,
{
    if i < 0 || i >= s.len() {
        Some(acc)
    } else if acc + s[i].active_amount > u64::MAX || acc + s[i].active_amount + s[i].cooling_down_amount > u64::MAX {
        None
    } else {
        delegation_from(s, i + 1, acc + s[i].active_amount + s[i].cooling_down_amount)
    }
}

/// `i` is the first entry for the operator `key`.
pub open spec fn is_first_operator(s: Seq<VaultOperator>, i: int, key: Seq<u8>) -> bool {
    &&& 0 <= i < s.len()
    &&& s[i].operator@ == key
    &&& forall|j: int| 0 <= j < i ==> s[j].operator@ != key
}

/// No entry is for the operator `key`.
pub open spec fn lacks_operator(s: Seq<VaultOperator>, key: Seq<u8>) -> bool {
    forall|j: int| 0 <= j < s.len() ==> s[j].operator@ != key
}

/// The seeds of the operator list of a vault.
pub open spec fn vault_operator_list_seeds(vault: Seq<u8>) -> Seq<Seq<u8>> {
    seq!["vault_supported_operators".spec_bytes(), vault]
}

/// A sum that is found stays within the range of a `u64`, above what it started from.
proof fn lemma_delegation_from_bound(s: Seq<VaultOperator>, i: int, acc: int)
    requires
        0 <= acc <= u64::MAX,
        delegation_from(s, i, acc) is Some,
    ensures
        acc <= delegation_from(s, i, acc)->Some_0 <= u64::MAX,
    decreases s.len() - i,
{
    if 0 <= i < s.len() {
        lemma_delegation_from_bound(s, i + 1, acc + s[i].active_amount + s[i].cooling_down_amount);
    }
}

proof fn lemma_first_operator_unique(s: Seq<VaultOperator>, i: int, j: int, key: Seq<u8>)
    requires
        is_first_operator(s, i, key),
        is_first_operator(s, j, key),
    ensures
        i == j,
{
    if i < j {
        assert(s[i].operator@ != key);
    } else if j < i {
        assert(s[j].operator@ != key);
    }
}

impl VaultOperatorList {
    pub fn new(vault: Address, bump: u8) -> (r: Self)
        ensures
            r.vault == vault && r.bump == bump && r.operator_list@.len() == 0 && r.last_slot_updated == 0,
    {
        Self { vault, operator_list: Vec::new(), last_slot_updated: 0, bump }
    }

    pub fn vault(&self) -> (r: Address)
        ensures
            r == self.vault,
    {
        self.vault
    }

    pub fn operator_list(&self) -> (r: &[VaultOperator])
        ensures
            r@ == self.operator_list@,
    {
        self.operator_list.as_slice()
    }

    /// Whether an epoch boundary has passed since the last update.
    pub fn needs_update(&self, slot: u64, epoch_length: u64) -> (r: bool)
        requires
            epoch_length > 0,
        ensures
            r == (self.last_slot_updated / epoch_length < slot / epoch_length),
    {
        self.last_slot_updated / epoch_length < slot / epoch_length
    }

    /// Once an epoch boundary has passed, releases the stake cooling down from every
    /// operator and records the update; returns whether it did.
    pub fn update_delegations(&mut self, slot: u64, epoch_length: u64) -> (r: bool)
        requires
            epoch_length > 0,
        ensures
            r == (old(self).last_slot_updated / epoch_length < slot / epoch_length),
            !r ==> *final(self) == *old(self),
            r ==> final(self).vault == old(self).vault && final(self).bump == old(self).bump
                && final(self).last_slot_updated == slot
                && final(self).operator_list@.len() == old(self).operator_list@.len()
                && forall|j: int| 0 <= j < old(self).operator_list@.len() ==> #[trigger] final(self).operator_list@[j]
                    == (VaultOperator { cooling_down_amount: 0, ..old(self).operator_list@[j] }),
    {
        let last_epoch_update = self.last_slot_updated / epoch_length;
        let current_epoch = slot / epoch_length;
        if last_epoch_update < current_epoch {
            let mut i: usize = 0;
            while i < self.operator_list.len()
                invariant
                    i <= self.operator_list@.len(),
                    self.operator_list@.len() == old(self).operator_list@.len(),
                    self.vault == old(self).vault && self.bump == old(self).bump,
                    self.last_slot_updated == old(self).last_slot_updated,
                    forall|j: int| 0 <= j < i ==> #[trigger] self.operator_list@[j]
                        == (VaultOperator { cooling_down_amount: 0, ..old(self).operator_list@[j] }),
                    forall|j: int| i <= j < self.operator_list@.len() ==> #[trigger] self.operator_list@[j] == old(self).operator_list@[j],
                decreases self.operator_list@.len() - i,
            {
                let mut o = self.operator_list[i];
                o.cooling_down_amount = 0;
                self.operator_list.set(i, o);
                i = i + 1;
            }
            self.last_slot_updated = slot;
            true
        } else {
            false
        }
    }

    /// The stake delegated to all the operators, active or cooling down, or `None` when
    /// it leaves the range of a `u64`.
    pub fn total_delegation(&self) -> (r: Option<u64>)
        ensures
            r is Some <==> delegation_from(self.operator_list@, 0, 0) is Some,
            r matches Some(t) ==> delegation_from(self.operator_list@, 0, 0) == Some(t as int),
    {
        proof {
            if delegation_from(self.operator_list@, 0, 0) is Some {
                lemma_delegation_from_bound(self.operator_list@, 0, 0);
            }
        }
        let mut total: u64 = 0;
        let mut i: usize = 0;
        while i < self.operator_list.len()
            invariant
                i <= self.operator_list@.len(),
                delegation_from(self.operator_list@, 0, 0) == delegation_from(self.operator_list@, i as int, total as int),
            decreases self.operator_list@.len() - i,
        {
            let o = self.operator_list[i];
            let with_active = match total.checked_add(o.active_amount) {
                Some(x) => x,
                None => {
                    return None;
                },
            };
            total = match with_active.checked_add(o.cooling_down_amount) {
                Some(x) => x,
                None => {
                    return None;
                },
            };
            i = i + 1;
        }
        Some(total)
    }

    /// The first entry for the operator `key`, if any.
    fn find(&self, key: &Address) -> (r: Option<usize>)
        ensures
            r matches Some(i) ==> is_first_operator(self.operator_list@, i as int, key@),
            r is None ==> lacks_operator(self.operator_list@, key@),
    {
        let mut i: usize = 0;
        while i < self.operator_list.len()
            invariant
                i <= self.operator_list@.len(),
                forall|j: int| 0 <= j < i ==> self.operator_list@[j].operator@ != key@,
            decreases self.operator_list@.len() - i,
        {
            if self.operator_list[i].operator.equals(key) {
                return Some(i);
            }
            i = i + 1;
        }
        None
    }

    /// Delegates `amount` to an operator of the vault, keeping the stake delegated to all
    /// the operators within `total_deposited`. Every refusal is an invalid argument.
    pub fn delegate(&mut self, operator: Address, amount: u64, total_deposited: u64) -> (r: Result<(), ProgramError>)
        ensures
            ({
                let s = old(self).operator_list@;
                let ok = match delegation_from(s, 0, 0) {
                    None => false,
                    Some(t) => t + amount <= total_deposited && exists|i: int| is_first_operator(s, i, operator@)
                        && s[i].active_amount + amount <= u64::MAX,
                };
                &&& r is Ok <==> ok
                &&& r matches Err(e) ==> e == ProgramError::InvalidArgument && *final(self) == *old(self)
                &&& r is Ok ==> forall|i: int| is_first_operator(s, i, operator@) ==> final(self).operator_list@ == s.update(
                    i,
                    VaultOperator { active_amount: (s[i].active_amount + amount) as u64, ..s[i] },
                )
                &&& r is Ok ==> final(self).vault == old(self).vault && final(self).bump == old(self).bump
                    && final(self).last_slot_updated == old(self).last_slot_updated
            }),
    {
        let total_delegations = match self.total_delegation() {
            Some(t) => t,
            None => {
                return Err(ProgramError::InvalidArgument);
            },
        };
        let delegated_after_deposit = match total_delegations.checked_add(amount) {
            Some(t) => t,
            None => {
                return Err(ProgramError::InvalidArgument);
            },
        };
        if delegated_after_deposit > total_deposited {
            return Err(ProgramError::InvalidArgument);
        }
        match self.find(&operator) {
            Some(i) => {
                proof {
                    assert forall|j: int| is_first_operator(old(self).operator_list@, j, operator@) implies j == i by {
                        lemma_first_operator_unique(old(self).operator_list@, i as int, j, operator@);
                    }
                }
                assert(is_first_operator(old(self).operator_list@, i as int, operator@));
                let mut o = self.operator_list[i];
                o.active_amount = match o.active_amount.checked_add(amount) {
                    Some(x) => x,
                    None => {
                        return Err(ProgramError::InvalidArgument);
                    },
                };
                self.operator_list.set(i, o);
                Ok(())
            },
            None => Err(ProgramError::InvalidArgument),
        }
    }

    /// Moves `amount` of an operator's active stake to cooling down. Every refusal is an
    /// invalid argument; when the cooling-down amount would overflow, the active amount is
    /// already reduced.
    pub fn undelegate(&mut self, operator: Address, amount: u64) -> (r: Result<(), ProgramError>)
        ensures
            ({
                let s = old(self).operator_list@;
                &&& lacks_operator(s, operator@) ==> r == Err::<(), ProgramError>(ProgramError::InvalidArgument)
                    && *final(self) == *old(self)
                &&& forall|i: int| is_first_operator(s, i, operator@) ==> (if amount > s[i].active_amount {
                    r == Err::<(), ProgramError>(ProgramError::InvalidArgument) && final(self).operator_list@ == s
                } else if s[i].cooling_down_amount + amount > u64::MAX {
                    r == Err::<(), ProgramError>(ProgramError::InvalidArgument) && final(self).operator_list@ == s.update(
                        i,
                        VaultOperator { active_amount: (s[i].active_amount - amount) as u64, ..s[i] },
                    )
                } else {
                    r is Ok && final(self).operator_list@ == s.update(
                        i,
                        VaultOperator {
                            active_amount: (s[i].active_amount - amount) as u64,
                            cooling_down_amount: (s[i].cooling_down_amount + amount) as u64,
                            ..s[i]
                        },
                    )
                })
                &&& final(self).vault == old(self).vault && final(self).bump == old(self).bump
                &&& final(self).last_slot_updated == old(self).last_slot_updated
            }),
    {
        match self.find(&operator) {
            Some(i) => {
                proof {
                    assert forall|j: int| is_first_operator(old(self).operator_list@, j, operator@) implies j == i by {
                        lemma_first_operator_unique(old(self).operator_list@, i as int, j, operator@);
                    }
                }
                let mut o = self.operator_list[i];
                o.active_amount = match o.active_amount.checked_sub(amount) {
                    Some(x) => x,
                    None => {
                        return Err(ProgramError::InvalidArgument);
                    },
                };
                match o.cooling_down_amount.checked_add(amount) {
                    Some(x) => {
                        o.cooling_down_amount = x;
                        self.operator_list.set(i, o);
                        Ok(())
                    },
                    None => {
                        self.operator_list.set(i, o);
                        Err(ProgramError::InvalidArgument)
                    },
                }
            },
            None => Err(ProgramError::InvalidArgument),
        }
    }

    /// The seeds of the operator list of a vault.
    pub fn seeds(vault: &Address) -> (r: Vec<Vec<u8>>)
        ensures
            r.deep_view() == vault_operator_list_seeds(vault@),
    {
        let mut r: Vec<Vec<u8>> = Vec::new();
        r.push(seed_from_str("vault_supported_operators"));
        let v = vault.to_vec();
        proof {
            lemma_bytes_deep_view(v);
        }
        r.push(v);
        assert(r.deep_view() =~= vault_operator_list_seeds(vault@));
        r
    }

    /// The program address of the list, its bump seed and its seeds.
    pub fn find_program_address(program_id: &Address, vault: &Address) -> (r: Option<(Address, u8, Vec<Vec<u8>>)>)
        ensures
            found_program_address(vault_operator_list_seeds(vault@), program_id@) matches Some((k, b)) ==> (r matches Some(t)
                && t.0@ == k && t.1 == b && t.2.deep_view() == vault_operator_list_seeds(vault@)),
            found_program_address(vault_operator_list_seeds(vault@), program_id@) is None ==> r is None,
    {
        let seeds = Self::seeds(vault);
        match try_find_program_address(&seeds, program_id) {
            Some((key, bump)) => Some((key, bump, seeds)),
            None => None,
        }
    }
}

} // verus!
