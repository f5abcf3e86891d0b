//! An operator that has opted in to the vault, and the stake delegated to it, split by
//! stage: staked, enqueued for cooldown, cooling down, enqueued for withdrawal and
//! cooling down for withdrawal.
use vstd::prelude::*;
use crate::address::{Address, zero_key};
use crate::math::{ceil_div, ceil_div_u128, mul_wide};
use crate::result::VaultCoreError;

verus! {

/// Represents an operator that has opted in to the vault and any associated stake on it.
#[derive(Debug, Clone, Copy)]
pub struct OperatorDelegation {
    /// The operator pubkey that has opted in to the vault
    pub operator: Address,
    /// The amount of stake that is currently active on the operator
    pub staked_amount: u64,
    /// Any stake that was deactivated in the current epoch
    pub enqueued_for_cooldown_amount: u64,
    /// Any stake that was deactivated in the previous epoch,
    /// to be available for re-delegation in the current epoch + 1
    pub cooling_down_amount: u64,
    /// Any stake that was enqueued for withdraw in the current epoch.
    /// These funds are earmarked for withdraw and can't be redelegated once inactive.
    pub enqueued_for_withdraw_amount: u64,
    /// Any stake that was enqueued for withdraw in the previous epoch,
    /// to be available for withdrawal in the current epoch + 1
    pub cooling_down_for_withdraw_amount: u64,
}

impl OperatorDelegation {
    /// All stake on the operator: what counts for security.
    pub open spec fn total(&self) -> int {
        self.staked_amount + self.enqueued_for_cooldown_amount + self.cooling_down_amount
            + self.enqueued_for_withdraw_amount + self.cooling_down_for_withdraw_amount
    }

    /// The stake that may still be withdrawn: staked, enqueued for cooldown and cooling down.
    pub open spec fn withdrawable(&self) -> int {
        self.staked_amount + self.enqueued_for_cooldown_amount + self.cooling_down_amount
    }

    /// Whether the record holds no stake at all.
    pub open spec fn holds_nothing(&self) -> bool {
        self.total() == 0
    }
}

/// One bucket's part of a pro-rata slash: the share is rounded up, and never more than
/// the bucket holds or than what remains to slash. Gives the bucket and the remainder after.
pub open spec fn slash_step(bucket: int, remaining: int, slash_amount: int, total: int) -> (int, int) {
    if bucket == 0 || remaining == 0 {
        (bucket, remaining)
    } else {
        let share = ceil_div(bucket * slash_amount, total);
        let take = if share <= bucket && share <= remaining {
            share
        } else if bucket <= remaining {
            bucket
        } else {
            remaining
        };
        (bucket - take, remaining - take)
    }
}

/// The delegation after a pro-rata slash of `a` (see [`OperatorDelegation::slash`]).
pub open spec fn pro_rata_slashed(d: OperatorDelegation, a: int) -> OperatorDelegation {
    let t = d.total();
    let s1 = slash_step(d.staked_amount as int, a, a, t);
    let s2 = slash_step(d.enqueued_for_cooldown_amount as int, s1.1, a, t);
    let s3 = slash_step(d.cooling_down_amount as int, s2.1, a, t);
    let s4 = slash_step(d.enqueued_for_withdraw_amount as int, s3.1, a, t);
    let s5 = slash_step(d.cooling_down_for_withdraw_amount as int, s4.1, a, t);
    OperatorDelegation {
        staked_amount: s1.0 as u64,
        enqueued_for_cooldown_amount: s2.0 as u64,
        cooling_down_amount: s3.0 as u64,
        enqueued_for_withdraw_amount: s4.0 as u64,
        cooling_down_for_withdraw_amount: s5.0 as u64,
        ..d
    }
}

/// The delegation with `amount` drawn from its staked, then enqueued for cooldown, then
/// cooling down stake (see [`OperatorDelegation::undelegate_for_withdraw`]).
pub open spec fn pulled_for_withdraw(d: OperatorDelegation, amount: int) -> OperatorDelegation {
    let from_staked = smaller(d.staked_amount as int, amount);
    let rest = amount - from_staked;
    let from_enqueued = smaller(d.enqueued_for_cooldown_amount as int, rest);
    let from_cooling = smaller(d.cooling_down_amount as int, rest - from_enqueued);
    OperatorDelegation {
        staked_amount: (d.staked_amount - from_staked) as u64,
        enqueued_for_cooldown_amount: (d.enqueued_for_cooldown_amount - from_enqueued) as u64,
        cooling_down_amount: (d.cooling_down_amount - from_cooling) as u64,
        ..d
    }
}

/// The delegation with `amount` drawn as above and enqueued for withdrawal.
pub open spec fn undelegated_for_withdraw(d: OperatorDelegation, amount: int) -> OperatorDelegation {
    OperatorDelegation {
        enqueued_for_withdraw_amount: (d.enqueued_for_withdraw_amount + amount) as u64,
        ..pulled_for_withdraw(d, amount)
    }
}

/// The smaller of two amounts.
pub open spec fn smaller(a: int, b: int) -> int {
    if a <= b {
        a
    } else {
        b
    }
}

/// A pro-rata share, rounded up, of a bucket that holds no more than the total, is at
/// most the bucket and at least the exact share.
pub proof fn lemma_share_bounds(bucket: int, slash_amount: int, total: int)
    requires
        0 <= bucket <= total,
        0 <= slash_amount <= total,
        total > 0,
    ensures
        ceil_div(bucket * slash_amount, total) <= bucket,
        ceil_div(bucket * slash_amount, total) * total >= bucket * slash_amount,
        ceil_div(bucket * slash_amount, total) >= 0,
{
    let x = bucket * slash_amount;
    assert(0 <= bucket * slash_amount <= bucket * total) by (nonlinear_arith)
        requires
            0 <= bucket,
            0 <= slash_amount <= total,
    ;
    let y = x + total - 1;
    let c = y / total;
    assert(c == ceil_div(x, total));
    assert(y == total * (y / total) + y % total && 0 <= y % total < total) by (nonlinear_arith)
        requires
            total > 0,
    ;
    // c * total == y - y % total >= y - (total - 1) == x
    assert(c * total >= x) by (nonlinear_arith)
        requires
            y == total * c + y % total,
            y % total <= total - 1,
            y == x + total - 1,
    ;
    // y <= bucket * total + total - 1, so c <= bucket
    let z = bucket * total + total - 1;
    assert(y <= z);
    vstd::arithmetic::div_mod::lemma_div_is_ordered(y, z, total);
    assert(z / total == bucket) by (nonlinear_arith)
        requires
            z == bucket * total + (total - 1),
            0 <= total - 1 < total,
    ;
    assert(c >= 0) by (nonlinear_arith)
        requires
            c == y / total,
            y >= 0,
            total > 0,
    ;
}

impl OperatorDelegation {
    pub fn new(operator: Address) -> (r: Self)
        ensures
            r.operator == operator && r.holds_nothing(),
            r.staked_amount == 0 && r.enqueued_for_cooldown_amount == 0 && r.cooling_down_amount == 0,
            r.enqueued_for_withdraw_amount == 0 && r.cooling_down_for_withdraw_amount == 0,
    {
        Self {
            operator,
            staked_amount: 0,
            enqueued_for_cooldown_amount: 0,
            cooling_down_amount: 0,
            enqueued_for_withdraw_amount: 0,
            cooling_down_for_withdraw_amount: 0,
        }
    }

    pub fn operator(&self) -> (r: Address)
        ensures
            r == self.operator,
    {
        self.operator
    }

    pub fn staked_amount(&self) -> (r: u64)
        ensures
            r == self.staked_amount,
    {
        self.staked_amount
    }

    pub fn enqueued_for_cooldown_amount(&self) -> (r: u64)
        ensures
            r == self.enqueued_for_cooldown_amount,
    {
        self.enqueued_for_cooldown_amount
    }

    pub fn cooling_down_amount(&self) -> (r: u64)
        ensures
            r == self.cooling_down_amount,
    {
        self.cooling_down_amount
    }

    pub fn enqueued_for_withdraw_amount(&self) -> (r: u64)
        ensures
            r == self.enqueued_for_withdraw_amount,
    {
        self.enqueued_for_withdraw_amount
    }

    pub fn cooling_down_for_withdraw_amount(&self) -> (r: u64)
        ensures
            r == self.cooling_down_for_withdraw_amount,
    {
        self.cooling_down_for_withdraw_amount
    }

    /// Whether the record holds no stake at all.
    pub fn is_empty(&self) -> (r: bool)
        ensures
            r == self.holds_nothing(),
    {
        self.staked_amount == 0 && self.enqueued_for_cooldown_amount == 0 && self.cooling_down_amount == 0
            && self.enqueued_for_withdraw_amount == 0 && self.cooling_down_for_withdraw_amount == 0
    }

    /// The total amount of stake on the operator that can be applied for security, which
    /// includes the active and any cooling down stake for re-delegation or withdrawal.
    pub fn total_security(&self) -> (r: Result<u64, VaultCoreError>)
        ensures
            r is Ok <==> self.total() <= u64::MAX,
            r matches Ok(t) ==> t == self.total(),
            r matches Err(e) ==> e == VaultCoreError::VaultOperatorActiveStakeOverflow,
    {
        let a = match self.staked_amount.checked_add(self.enqueued_for_cooldown_amount) {
            Some(x) => x,
            None => {
                return Err(VaultCoreError::VaultOperatorActiveStakeOverflow);
            },
        };
        let b = match a.checked_add(self.cooling_down_amount) {
            Some(x) => x,
            None => {
                return Err(VaultCoreError::VaultOperatorActiveStakeOverflow);
            },
        };
        let c = match b.checked_add(self.enqueued_for_withdraw_amount) {
            Some(x) => x,
            None => {
                return Err(VaultCoreError::VaultOperatorActiveStakeOverflow);
            },
        };
        match c.checked_add(self.cooling_down_for_withdraw_amount) {
            Some(x) => Ok(x),
            None => Err(VaultCoreError::VaultOperatorActiveStakeOverflow),
        }
    }

    /// The withdrawable security: the amount actively staked, the amount enqueued for
    /// cooldown, and the cooling down amount.
    pub fn withdrawable_security(&self) -> (r: Result<u64, VaultCoreError>)
        ensures
            r is Ok <==> self.withdrawable() <= u64::MAX,
            r matches Ok(t) ==> t == self.withdrawable(),
            r matches Err(e) ==> e == VaultCoreError::VaultOperatorActiveStakeOverflow,
    {
        let a = match self.staked_amount.checked_add(self.enqueued_for_cooldown_amount) {
            Some(x) => x,
            None => {
                return Err(VaultCoreError::VaultOperatorActiveStakeOverflow);
            },
        };
        match a.checked_add(self.cooling_down_amount) {
            Some(x) => Ok(x),
            None => Err(VaultCoreError::VaultOperatorActiveStakeOverflow),
        }
    }

    /// Moves to the next epoch. Stake enqueued for cooldown or withdrawal starts cooling
    /// down; what was cooling down is released. Returns the stake released for withdrawal.
    pub fn update(&mut self) -> (r: u64)
        ensures
            r == old(self).cooling_down_for_withdraw_amount,
            *final(self) == (OperatorDelegation {
                enqueued_for_cooldown_amount: 0,
                cooling_down_amount: old(self).enqueued_for_cooldown_amount,
                enqueued_for_withdraw_amount: 0,
                cooling_down_for_withdraw_amount: old(self).enqueued_for_withdraw_amount,
                ..*old(self)
            }),
    {
        let available_for_withdraw = self.cooling_down_for_withdraw_amount;
        self.cooling_down_amount = self.enqueued_for_cooldown_amount;
        self.enqueued_for_cooldown_amount = 0;
        self.cooling_down_for_withdraw_amount = self.enqueued_for_withdraw_amount;
        self.enqueued_for_withdraw_amount = 0;
        available_for_withdraw
    }

    /// One bucket's part of a pro-rata slash.
    fn apply_slash(amount: &mut u64, remaining_slash: &mut u64, slash_amount: u64, total: u64)
        requires
            *old(amount) <= total,
            slash_amount <= total,
            total > 0,
        ensures
            (*final(amount) as int, *final(remaining_slash) as int) == slash_step(
                *old(amount) as int,
                *old(remaining_slash) as int,
                slash_amount as int,
                total as int,
            ),
    {
        if *amount == 0 || *remaining_slash == 0 {
            return;
        }
        proof {
            lemma_share_bounds(*amount as int, slash_amount as int, total as int);
        }
        let share: u128 = ceil_div_u128(mul_wide(*amount, slash_amount), total as u128);
        let share64: u64 = share as u64;
        let bounded = if *amount <= *remaining_slash {
            *amount
        } else {
            *remaining_slash
        };
        let take = if share64 <= bounded {
            share64
        } else {
            bounded
        };
        *amount = *amount - take;
        *remaining_slash = *remaining_slash - take;
    }

    /// Slashes the operator by `slash_amount`, taking from each bucket its share of the
    /// slash in proportion to the bucket's part of the total stake (rounded up, and
    /// bounded by what remains to slash), in the order: staked, enqueued for cooldown,
    /// cooling down, enqueued for withdrawal, cooling down for withdrawal.
    #[verifier::rlimit(60)]
    pub fn slash(&mut self, slash_amount: u64) -> (r: Result<(), VaultCoreError>)
        ensures
            r is Ok <==> (old(self).total() <= u64::MAX && slash_amount <= old(self).total()),
            r matches Err(e) ==> *final(self) == *old(self) && (if old(self).total() > u64::MAX {
                e == VaultCoreError::VaultOperatorActiveStakeOverflow
            } else {
                e == VaultCoreError::VaultSlashingUnderflow
            }),
            r is Ok ==> *final(self) == pro_rata_slashed(*old(self), slash_amount as int),
    {
        let total_security_amount = match self.total_security() {
            Ok(t) => t,
            Err(e) => {
                return Err(e);
            },
        };
        if slash_amount > total_security_amount {
            return Err(VaultCoreError::VaultSlashingUnderflow);
        }
        if total_security_amount == 0 {
            assert(*self == pro_rata_slashed(*self, 0));
            return Ok(());
        }
        let ghost t = total_security_amount as int;
        let ghost a = slash_amount as int;
        let ghost o = *self;
        let mut remaining_slash = slash_amount;
        Self::apply_slash(&mut self.staked_amount, &mut remaining_slash, slash_amount, total_security_amount);
        let ghost r1 = remaining_slash as int;
        Self::apply_slash(&mut self.enqueued_for_cooldown_amount, &mut remaining_slash, slash_amount, total_security_amount);
        let ghost r2 = remaining_slash as int;
        Self::apply_slash(&mut self.cooling_down_amount, &mut remaining_slash, slash_amount, total_security_amount);
        let ghost r3 = remaining_slash as int;
        Self::apply_slash(&mut self.enqueued_for_withdraw_amount, &mut remaining_slash, slash_amount, total_security_amount);
        let ghost r4 = remaining_slash as int;
        Self::apply_slash(&mut self.cooling_down_for_withdraw_amount, &mut remaining_slash, slash_amount, total_security_amount);
        proof {
            lemma_pro_rata_slash_completes(
                o.staked_amount as int,
                o.enqueued_for_cooldown_amount as int,
                o.cooling_down_amount as int,
                o.enqueued_for_withdraw_amount as int,
                o.cooling_down_for_withdraw_amount as int,
                a,
            );
        }
        if remaining_slash > 0 {
            return Err(VaultCoreError::VaultSlashingIncomplete);
        }
        Ok(())
    }

    /// Undelegates assets from the operator, pulling from the staked assets.
    pub fn undelegate(&mut self, amount: u64) -> (r: Result<(), VaultCoreError>)
        ensures
            r is Ok <==> (amount <= old(self).staked_amount && old(self).enqueued_for_cooldown_amount + amount <= u64::MAX),
            r is Ok ==> *final(self) == (OperatorDelegation {
                staked_amount: (old(self).staked_amount - amount) as u64,
                enqueued_for_cooldown_amount: (old(self).enqueued_for_cooldown_amount + amount) as u64,
                ..*old(self)
            }),
            r matches Err(e) ==> (if amount > old(self).staked_amount {
                e == VaultCoreError::VaultDelegationUnderflow && *final(self) == *old(self)
            } else {
                // the staked amount is already reduced when the enqueued amount overflows
                e == VaultCoreError::VaultDelegationOverflow && *final(self) == (OperatorDelegation {
                    staked_amount: (old(self).staked_amount - amount) as u64,
                    ..*old(self)
                })
            }),
    {
        self.staked_amount = match self.staked_amount.checked_sub(amount) {
            Some(x) => x,
            None => {
                return Err(VaultCoreError::VaultDelegationUnderflow);
            },
        };
        self.enqueued_for_cooldown_amount = match self.enqueued_for_cooldown_amount.checked_add(amount) {
            Some(x) => x,
            None => {
                return Err(VaultCoreError::VaultDelegationOverflow);
            },
        };
        Ok(())
    }

    /// Undelegates assets for withdrawal: pulls from the staked amount first, then from
    /// the amount enqueued for cooldown, then from the amount cooling down, and enqueues
    /// the whole amount for withdrawal.
    pub fn undelegate_for_withdraw(&mut self, amount: u64) -> (r: Result<(), VaultCoreError>)
        ensures
            r is Ok <==> (old(self).withdrawable() <= u64::MAX && amount <= old(self).withdrawable()
                && old(self).enqueued_for_withdraw_amount + amount <= u64::MAX),
            ({
                let pulled = pulled_for_withdraw(*old(self), amount as int);
                &&& r is Ok ==> *final(self) == undelegated_for_withdraw(*old(self), amount as int)
                &&& r matches Err(e) ==> (if old(self).withdrawable() > u64::MAX {
                    e == VaultCoreError::VaultOperatorActiveStakeOverflow && *final(self) == *old(self)
                } else if amount > old(self).withdrawable() {
                    e == VaultCoreError::VaultDelegationListInsufficientSecurity && *final(self) == *old(self)
                } else {
                    // the buckets are already drawn down when the withdrawal amount overflows
                    e == VaultCoreError::VaultDelegationOverflow && *final(self) == pulled
                })
            }),
    {
        let withdrawable = match self.withdrawable_security() {
            Ok(w) => w,
            Err(e) => {
                return Err(e);
            },
        };
        if amount > withdrawable {
            return Err(VaultCoreError::VaultDelegationListInsufficientSecurity);
        }
        let mut amount_left = amount;
        let staked_amount_withdraw = if self.staked_amount <= amount_left {
            self.staked_amount
        } else {
            amount_left
        };
        self.staked_amount = self.staked_amount - staked_amount_withdraw;
        amount_left = amount_left - staked_amount_withdraw;
        let enqueued_for_cooldown_amount_withdraw = if self.enqueued_for_cooldown_amount <= amount_left {
            self.enqueued_for_cooldown_amount
        } else {
            amount_left
        };
        self.enqueued_for_cooldown_amount = self.enqueued_for_cooldown_amount - enqueued_for_cooldown_amount_withdraw;
        amount_left = amount_left - enqueued_for_cooldown_amount_withdraw;
        let cooldown_amount_withdraw = if self.cooling_down_amount <= amount_left {
            self.cooling_down_amount
        } else {
            amount_left
        };
        self.cooling_down_amount = self.cooling_down_amount - cooldown_amount_withdraw;
        self.enqueued_for_withdraw_amount = match self.enqueued_for_withdraw_amount.checked_add(amount) {
            Some(x) => x,
            None => {
                return Err(VaultCoreError::VaultDelegationOverflow);
            },
        };
        Ok(())
    }

    /// Delegates assets to the operator.
    pub fn delegate(&mut self, amount: u64) -> (r: Result<(), VaultCoreError>)
        ensures
            r is Ok <==> old(self).staked_amount + amount <= u64::MAX,
            r is Ok ==> *final(self) == (OperatorDelegation { staked_amount: (old(self).staked_amount + amount) as u64, ..*old(self) }),
            r matches Err(e) ==> e == VaultCoreError::VaultDelegationOverflow && *final(self) == *old(self),
    {
        self.staked_amount = match self.staked_amount.checked_add(amount) {
            Some(x) => x,
            None => {
                return Err(VaultCoreError::VaultDelegationOverflow);
            },
        };
        Ok(())
    }
}

impl Default for OperatorDelegation {
    fn default() -> (r: Self)
        ensures
            r.operator@ == zero_key() && r.holds_nothing(),
            r.staked_amount == 0 && r.enqueued_for_cooldown_amount == 0 && r.cooling_down_amount == 0,
            r.enqueued_for_withdraw_amount == 0 && r.cooling_down_for_withdraw_amount == 0,
    {
        Self::new(Address::default())
    }
}

/// After a pro-rata slash step, the remainder is what the shares taken so far leave of
/// the slash, or zero once they cover it.
proof fn lemma_slash_step_remainder(bucket: int, remaining: int, slash_amount: int, total: int)
    requires
        0 <= bucket <= total,
        0 <= slash_amount <= total,
        0 <= remaining,
        total > 0,
    ensures
        ({
            let share = ceil_div(bucket * slash_amount, total);
            let step = slash_step(bucket, remaining, slash_amount, total);
            &&& step.1 == (if remaining - share > 0 { remaining - share } else { 0 })
            &&& 0 <= step.0 <= bucket
        }),
{
    lemma_share_bounds(bucket, slash_amount, total);
    if bucket == 0 {
        assert(bucket * slash_amount == 0);
        assert(ceil_div(0, total) == 0) by (nonlinear_arith)
            requires
                total > 0,
        ;
    }
}

/// The pro-rata shares of the five buckets, rounded up, cover the whole slash, so a
/// slash never leaves a remainder.
proof fn lemma_pro_rata_slash_completes(b1: int, b2: int, b3: int, b4: int, b5: int, a: int)
    requires
        0 <= b1 && 0 <= b2 && 0 <= b3 && 0 <= b4 && 0 <= b5,
        b1 + b2 + b3 + b4 + b5 > 0,
        0 <= a <= b1 + b2 + b3 + b4 + b5,
    ensures
        ({
            let t = b1 + b2 + b3 + b4 + b5;
            let s1 = slash_step(b1, a, a, t);
            let s2 = slash_step(b2, s1.1, a, t);
            let s3 = slash_step(b3, s2.1, a, t);
            let s4 = slash_step(b4, s3.1, a, t);
            let s5 = slash_step(b5, s4.1, a, t);
            s5.1 == 0
        }),
{
    let t = b1 + b2 + b3 + b4 + b5;
    lemma_share_bounds(b1, a, t);
    lemma_share_bounds(b2, a, t);
    lemma_share_bounds(b3, a, t);
    lemma_share_bounds(b4, a, t);
    lemma_share_bounds(b5, a, t);
    let p1 = ceil_div(b1 * a, t);
    let p2 = ceil_div(b2 * a, t);
    let p3 = ceil_div(b3 * a, t);
    let p4 = ceil_div(b4 * a, t);
    let p5 = ceil_div(b5 * a, t);
    assert((p1 + p2 + p3 + p4 + p5) * t >= (b1 + b2 + b3 + b4 + b5) * a) by (nonlinear_arith)
        requires
            p1 * t >= b1 * a,
            p2 * t >= b2 * a,
            p3 * t >= b3 * a,
            p4 * t >= b4 * a,
            p5 * t >= b5 * a,
    ;
    assert(p1 + p2 + p3 + p4 + p5 >= a) by (nonlinear_arith)
        requires
            (p1 + p2 + p3 + p4 + p5) * t >= t * a,
            t > 0,
    ;
    lemma_slash_step_remainder(b1, a, a, t);
    let s1 = slash_step(b1, a, a, t);
    lemma_slash_step_remainder(b2, s1.1, a, t);
    let s2 = slash_step(b2, s1.1, a, t);
    lemma_slash_step_remainder(b3, s2.1, a, t);
    let s3 = slash_step(b3, s2.1, a, t);
    lemma_slash_step_remainder(b4, s3.1, a, t);
    let s4 = slash_step(b4, s3.1, a, t);
    lemma_slash_step_remainder(b5, s4.1, a, t);
}

} // verus!
