//! The stake that a vault holds on operators, split by its stage: staked, enqueued
//! for cooldown in the current epoch, and cooling down since the previous epoch.
use vstd::prelude::*;
use crate::error::VaultError;

verus! {

/// The bytes a delegation state occupies in account data after its three amounts.
pub const RESERVED_SPACE_LEN: usize = 256;

/// The bytes a delegation state occupies in account data.
pub const DELEGATION_STATE_LEN: usize = 280;

/// Rolled-up stake state of a delegation.
#[derive(Debug, Clone, Copy, PartialEq, Eq, Structural)]
pub struct DelegationState {
    /// The amount of stake that is currently active on the operator
    staked_amount: u64,
    /// Any stake that was deactivated in the current epoch
    enqueued_for_cooldown_amount: u64,
    /// Any stake that was deactivated in the previous epoch,
    /// to be available for re-delegation in the current epoch + 1
    cooling_down_amount: u64,
}

/// The smaller of two amounts.
pub open spec fn min_amount(a: int, b: int) -> int {
    if a <= b {
        a
    } else {
        b
    }
}

/// The staked, enqueued and cooling-down amounts left after slashing `amount`, taken
/// from the staked amount first, then from the enqueued amount, then from the amount
/// cooling down.
pub open spec fn slashed_amounts(d: DelegationState, amount: int) -> (int, int, int) {
    let from_staked = min_amount(d.staked() as int, amount);
    let rest = amount - from_staked;
    let from_enqueued = min_amount(d.enqueued() as int, rest);
    let from_cooling = rest - from_enqueued;
    (d.staked() - from_staked, d.enqueued() - from_enqueued, d.cooling() - from_cooling)
}

impl DelegationState {
    /// The staked amount.
    pub closed spec fn staked(&self) -> u64 {
        self.staked_amount
    }

    /// The amount enqueued for cooldown in the current epoch.
    pub closed spec fn enqueued(&self) -> u64 {
        self.enqueued_for_cooldown_amount
    }

    /// The amount cooling down since the previous epoch.
    pub closed spec fn cooling(&self) -> u64 {
        self.cooling_down_amount
    }

    /// The stake that counts for security: staked, enqueued and cooling down.
    pub open spec fn total(&self) -> int {
        self.staked() + self.enqueued() + self.cooling()
    }

    /// Whether the state holds exactly these three amounts.
    pub open spec fn holds(&self, staked: u64, enqueued: u64, cooling: u64) -> bool {
        &&& self.staked() == staked
        &&& self.enqueued() == enqueued
        &&& self.cooling() == cooling
    }

    /// Two states are equal exactly when they hold the same amounts.
    pub proof fn lemma_eq_by_amounts(a: DelegationState, b: DelegationState)
        ensures
            a.holds(b.staked(), b.enqueued(), b.cooling()) <==> a == b,
    {
    }

    pub fn new(staked_amount: u64, enqueued_for_cooldown_amount: u64, cooling_down_amount: u64) -> (r: Self)
        ensures
            r.holds(staked_amount, enqueued_for_cooldown_amount, cooling_down_amount),
    {
        Self { staked_amount, enqueued_for_cooldown_amount, cooling_down_amount }
    }

    pub fn staked_amount(&self) -> (r: u64)
        ensures
            r == self.staked(),
    {
        self.staked_amount
    }

    pub fn enqueued_for_cooldown_amount(&self) -> (r: u64)
        ensures
            r == self.enqueued(),
    {
        self.enqueued_for_cooldown_amount
    }

    pub fn cooling_down_amount(&self) -> (r: u64)
        ensures
            r == self.cooling(),
    {
        self.cooling_down_amount
    }

    /// Subtracts the amounts of `other` from `self`, stage by stage.
    pub fn subtract(&mut self, other: &Self) -> (r: Result<(), VaultError>)
        ensures
            r is Ok <==> (old(self).staked() >= other.staked() && old(self).enqueued() >= other.enqueued()
                && old(self).cooling() >= other.cooling()),
            r is Ok ==> final(self).holds(
                (old(self).staked() - other.staked()) as u64,
                (old(self).enqueued() - other.enqueued()) as u64,
                (old(self).cooling() - other.cooling()) as u64,
            ),
            r matches Err(e) ==> e == VaultError::VaultSecurityUnderflow && *final(self) == *old(self),
    {
        if self.staked_amount < other.staked_amount || self.enqueued_for_cooldown_amount
            < other.enqueued_for_cooldown_amount || self.cooling_down_amount < other.cooling_down_amount {
            return Err(VaultError::VaultSecurityUnderflow);
        }
        self.staked_amount = self.staked_amount - other.staked_amount;
        self.enqueued_for_cooldown_amount = self.enqueued_for_cooldown_amount - other.enqueued_for_cooldown_amount;
        self.cooling_down_amount = self.cooling_down_amount - other.cooling_down_amount;
        Ok(())
    }

    /// Adds the amounts of `other` into `self`, stage by stage.
    pub fn accumulate(&mut self, other: &Self) -> (r: Result<(), VaultError>)
        ensures
            r is Ok <==> (old(self).staked() + other.staked() <= u64::MAX && old(self).enqueued()
                + other.enqueued() <= u64::MAX && old(self).cooling() + other.cooling() <= u64::MAX),
            r is Ok ==> final(self).holds(
                (old(self).staked() + other.staked()) as u64,
                (old(self).enqueued() + other.enqueued()) as u64,
                (old(self).cooling() + other.cooling()) as u64,
            ),
            r matches Err(e) ==> e == VaultError::VaultSecurityOverflow && *final(self) == *old(self),
    {
        let staked = self.staked_amount.checked_add(other.staked_amount);
        let enqueued = self.enqueued_for_cooldown_amount.checked_add(other.enqueued_for_cooldown_amount);
        let cooling = self.cooling_down_amount.checked_add(other.cooling_down_amount);
        match (staked, enqueued, cooling) {
            (Some(s), Some(e), Some(c)) => {
                self.staked_amount = s;
                self.enqueued_for_cooldown_amount = e;
                self.cooling_down_amount = c;
                Ok(())
            },
            _ => Err(VaultError::VaultSecurityOverflow),
        }
    }

    /// The total amount of stake that can be applied for security: the active stake and
    /// any stake cooling down for re-delegation or withdrawal.
    pub fn total_security(&self) -> (r: Result<u64, VaultError>)
        ensures
            r is Ok <==> self.total() <= u64::MAX,
            r matches Ok(t) ==> t == self.total(),
            r matches Err(e) ==> e == VaultError::VaultSecurityOverflow,
    {
        match self.staked_amount.checked_add(self.enqueued_for_cooldown_amount) {
            Some(x) => match x.checked_add(self.cooling_down_amount) {
                Some(t) => Ok(t),
                None => Err(VaultError::VaultSecurityOverflow),
            },
            None => Err(VaultError::VaultSecurityOverflow),
        }
    }

    /// Moves to the next epoch: what was enqueued for cooldown is now cooling down,
    /// and what was cooling down is released.
    pub fn update(&mut self)
        ensures
            final(self).holds(old(self).staked(), 0, old(self).enqueued()),
    {
        self.cooling_down_amount = self.enqueued_for_cooldown_amount;
        self.enqueued_for_cooldown_amount = 0;
    }

    /// Slashes the delegation by the given amount, taking it from the staked amount
    /// first, then from the amount enqueued for cooldown, then from the amount cooling down.
    pub fn slash(&mut self, slash_amount: u64) -> (r: Result<(), VaultError>)
        ensures
            r is Ok <==> (old(self).total() <= u64::MAX && slash_amount <= old(self).total()),
            r matches Err(e) ==> *final(self) == *old(self) && (if old(self).total() > u64::MAX {
                e == VaultError::VaultSecurityOverflow
            } else {
                e == VaultError::VaultSlashUnderflow
            }),
            r is Ok ==> ({
                let left = slashed_amounts(*old(self), slash_amount as int);
                final(self).holds(left.0 as u64, left.1 as u64, left.2 as u64)
            }),
    {
        let total_security_amount = match self.total_security() {
            Ok(t) => t,
            Err(e) => {
                return Err(e);
            },
        };
        if slash_amount > total_security_amount {
            return Err(VaultError::VaultSlashUnderflow);
        }
        let mut remaining_slash = slash_amount;

        let from_staked = if self.staked_amount <= remaining_slash {
            self.staked_amount
        } else {
            remaining_slash
        };
        self.staked_amount = self.staked_amount - from_staked;
        remaining_slash = remaining_slash - from_staked;

        let from_enqueued = if self.enqueued_for_cooldown_amount <= remaining_slash {
            self.enqueued_for_cooldown_amount
        } else {
            remaining_slash
        };
        self.enqueued_for_cooldown_amount = self.enqueued_for_cooldown_amount - from_enqueued;
        remaining_slash = remaining_slash - from_enqueued;

        let from_cooling = if self.cooling_down_amount <= remaining_slash {
            self.cooling_down_amount
        } else {
            remaining_slash
        };
        self.cooling_down_amount = self.cooling_down_amount - from_cooling;
        remaining_slash = remaining_slash - from_cooling;

        if remaining_slash > 0 {
            // the amount slashed never exceeds the total security
            assert(false);
            return Err(VaultError::VaultSlashIncomplete);
        }
        Ok(())
    }

    /// Cools down stake: subtracts it from the staked amount and adds it to the amount
    /// enqueued for cooldown.
    pub fn cooldown(&mut self, amount: u64) -> (r: Result<(), VaultError>)
        ensures
            r is Ok <==> (amount > 0 && amount <= old(self).staked() && old(self).enqueued() + amount <= u64::MAX),
            r is Ok ==> final(self).holds(
                (old(self).staked() - amount) as u64,
                (old(self).enqueued() + amount) as u64,
                old(self).cooling(),
            ),
            r matches Err(e) ==> *final(self) == *old(self) && (if amount == 0 {
                e == VaultError::VaultCooldownZero
            } else if amount > old(self).staked() {
                e == VaultError::VaultSecurityUnderflow
            } else {
                e == VaultError::VaultSecurityOverflow
            }),
    {
        if amount == 0 {
            return Err(VaultError::VaultCooldownZero);
        }
        if amount > self.staked_amount {
            return Err(VaultError::VaultSecurityUnderflow);
        }
        match self.enqueued_for_cooldown_amount.checked_add(amount) {
            Some(e) => {
                self.staked_amount = self.staked_amount - amount;
                self.enqueued_for_cooldown_amount = e;
                Ok(())
            },
            None => Err(VaultError::VaultSecurityOverflow),
        }
    }

    /// Delegates assets to the operator.
    pub fn delegate(&mut self, amount: u64) -> (r: Result<(), VaultError>)
        ensures
            r is Ok <==> (amount > 0 && old(self).staked() + amount <= u64::MAX),
            r is Ok ==> final(self).holds(
                (old(self).staked() + amount) as u64,
                old(self).enqueued(),
                old(self).cooling(),
            ),
            r matches Err(e) ==> *final(self) == *old(self) && (if amount == 0 {
                e == VaultError::VaultDelegationZero
            } else {
                e == VaultError::VaultSecurityOverflow
            }),
    {
        if amount == 0 {
            return Err(VaultError::VaultDelegationZero);
        }
        match self.staked_amount.checked_add(amount) {
            Some(s) => {
                self.staked_amount = s;
                Ok(())
            },
            None => Err(VaultError::VaultSecurityOverflow),
        }
    }
}

impl Default for DelegationState {
    fn default() -> (r: Self)
        ensures
            r.holds(0, 0, 0),
    {
        Self { staked_amount: 0, enqueued_for_cooldown_amount: 0, cooling_down_amount: 0 }
    }
}

/// Subtracting what was accumulated gives back the state before: `subtract` undoes
/// `accumulate`.
pub proof fn lemma_accumulate_then_subtract(a: DelegationState, b: DelegationState, c: DelegationState)
    requires
        a.staked() + b.staked() <= u64::MAX,
        a.enqueued() + b.enqueued() <= u64::MAX,
        a.cooling() + b.cooling() <= u64::MAX,
        c.holds((a.staked() + b.staked()) as u64, (a.enqueued() + b.enqueued()) as u64, (a.cooling() + b.cooling()) as u64),
    ensures
        c.staked() >= b.staked() && c.enqueued() >= b.enqueued() && c.cooling() >= b.cooling(),
        a.holds((c.staked() - b.staked()) as u64, (c.enqueued() - b.enqueued()) as u64, (c.cooling() - b.cooling()) as u64),
        c.total() == a.total() + b.total(),
{
}

/// Cooling down moves stake from staked to enqueued and keeps the total security.
pub proof fn lemma_cooldown_keeps_total(d: DelegationState, amount: u64, d2: DelegationState)
    requires
        amount <= d.staked(),
        d.enqueued() + amount <= u64::MAX,
        d2.holds((d.staked() - amount) as u64, (d.enqueued() + amount) as u64, d.cooling()),
    ensures
        d2.total() == d.total(),
{
}

/// Stake enqueued for cooldown is released after two epoch updates: the first makes it
/// cooling down and releases what was cooling down, the second releases it; the staked
/// amount is untouched.
pub proof fn lemma_two_updates_release(d: DelegationState, d1: DelegationState, d2: DelegationState)
    requires
        d1.holds(d.staked(), 0, d.enqueued()),
        d2.holds(d1.staked(), 0, d1.enqueued()),
    ensures
        d1.total() == d.total() - d.cooling(),
        d2.holds(d.staked(), 0, 0),
        d2.total() == d.staked(),
{
}

/// A slash takes exactly the amount slashed, and no stage grows.
pub proof fn lemma_slash_takes_amount(d: DelegationState, amount: u64, d2: DelegationState)
    requires
        d.total() <= u64::MAX,
        amount <= d.total(),
        ({
            let left = slashed_amounts(d, amount as int);
            d2.holds(left.0 as u64, left.1 as u64, left.2 as u64)
        }),
    ensures
        d2.total() == d.total() - amount,
        d2.staked() <= d.staked() && d2.enqueued() <= d.enqueued() && d2.cooling() <= d.cooling(),
        amount <= d.staked() ==> d2.holds((d.staked() - amount) as u64, d.enqueued(), d.cooling()),
{
}

} // verus!
