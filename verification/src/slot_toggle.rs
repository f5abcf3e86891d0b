//! A toggle that is switched on and off at slots and takes a full epoch to warm up and to
//! cool down.
use vstd::prelude::*;
use crate::error::VaultError;

verus! {

/// The bytes a toggle occupies in account data: its two slots and 32 reserved bytes.
pub const SLOT_TOGGLE_LEN: usize = 48;

/// Where a toggle stands at a slot.
#[derive(Debug, Clone, Copy, PartialEq, Eq, Structural)]
pub enum SlotToggleState {
    /// Off, or switched off more than a full epoch ago
    Inactive,
    /// Switched on in this epoch or the previous one
    WarmUp,
    /// Switched on more than a full epoch ago
    Active,
    /// Switched off in this epoch or the previous one
    Cooldown,
}

/// The slots a toggle was last switched on and off at.
#[derive(Debug, Clone, Copy, PartialEq, Eq, Structural)]
pub struct SlotToggle {
    pub slot_added: u64,
    pub slot_removed: u64,
}

/// The state of a toggle at `slot`, for a positive epoch length. A toggle is on when it
/// was switched on after it was last switched off; it counts as on (or off) from the
/// second epoch after the switch.
pub open spec fn toggle_state(t: SlotToggle, slot: int, epoch_length: int) -> SlotToggleState {
    let current = slot / epoch_length;
    if t.slot_added > t.slot_removed {
        if current <= (t.slot_added as int) / epoch_length + 1 {
            SlotToggleState::WarmUp
        } else {
            SlotToggleState::Active
        }
    } else if t.slot_removed > t.slot_added {
        if current <= (t.slot_removed as int) / epoch_length + 1 {
            SlotToggleState::Cooldown
        } else {
            SlotToggleState::Inactive
        }
    } else {
        SlotToggleState::Inactive
    }
}

impl SlotToggle {
    /// A toggle created, switched off, at `slot`.
    pub fn new(slot: u64) -> (r: Self)
        ensures
            r.slot_added == slot && r.slot_removed == slot,
    {
        Self { slot_added: slot, slot_removed: slot }
    }

    pub fn slot_added(&self) -> (r: u64)
        ensures
            r == self.slot_added,
    {
        self.slot_added
    }

    pub fn slot_removed(&self) -> (r: u64)
        ensures
            r == self.slot_removed,
    {
        self.slot_removed
    }

    /// The state of the toggle at `slot`.
    pub fn state(&self, slot: u64, epoch_length: u64) -> (r: Result<SlotToggleState, VaultError>)
        ensures
            r is Ok <==> epoch_length > 0,
            r matches Ok(s) ==> s == toggle_state(*self, slot as int, epoch_length as int),
            r matches Err(e) ==> e == VaultError::DivisionByZero,
    {
        if epoch_length == 0 {
            return Err(VaultError::DivisionByZero);
        }
        let current = slot / epoch_length;
        if self.slot_added > self.slot_removed {
            let added_epoch = self.slot_added / epoch_length;
            if current <= added_epoch || current - added_epoch <= 1 {
                Ok(SlotToggleState::WarmUp)
            } else {
                Ok(SlotToggleState::Active)
            }
        } else if self.slot_removed > self.slot_added {
            let removed_epoch = self.slot_removed / epoch_length;
            if current <= removed_epoch || current - removed_epoch <= 1 {
                Ok(SlotToggleState::Cooldown)
            } else {
                Ok(SlotToggleState::Inactive)
            }
        } else {
            Ok(SlotToggleState::Inactive)
        }
    }

    /// Switches the toggle on at `slot` if it is inactive; returns whether it did.
    pub fn activate(&mut self, slot: u64, epoch_length: u64) -> (r: Result<bool, VaultError>)
        ensures
            r is Ok <==> epoch_length > 0,
            r matches Ok(b) ==> b == (toggle_state(*old(self), slot as int, epoch_length as int) == SlotToggleState::Inactive),
            r == Ok::<bool, VaultError>(true) ==> *final(self) == (SlotToggle { slot_added: slot, ..*old(self) }),
            r != Ok::<bool, VaultError>(true) ==> *final(self) == *old(self),
            r matches Err(e) ==> e == VaultError::DivisionByZero,
    {
        let state = match self.state(slot, epoch_length) {
            Ok(s) => s,
            Err(e) => {
                return Err(e);
            },
        };
        match state {
            SlotToggleState::Inactive => {
                self.slot_added = slot;
                Ok(true)
            },
            _ => Ok(false),
        }
    }

    /// Switches the toggle off at `slot` if it is active; returns whether it did.
    pub fn deactivate(&mut self, slot: u64, epoch_length: u64) -> (r: Result<bool, VaultError>)
        ensures
            r is Ok <==> epoch_length > 0,
            r matches Ok(b) ==> b == (toggle_state(*old(self), slot as int, epoch_length as int) == SlotToggleState::Active),
            r == Ok::<bool, VaultError>(true) ==> *final(self) == (SlotToggle { slot_removed: slot, ..*old(self) }),
            r != Ok::<bool, VaultError>(true) ==> *final(self) == *old(self),
            r matches Err(e) ==> e == VaultError::DivisionByZero,
    {
        let state = match self.state(slot, epoch_length) {
            Ok(s) => s,
            Err(e) => {
                return Err(e);
            },
        };
        match state {
            SlotToggleState::Active => {
                self.slot_removed = slot;
                Ok(true)
            },
            _ => Ok(false),
        }
    }
}

/// Once a toggle is switched on at a slot after it was last switched off, it is warming
/// up or active at every later slot.
pub proof fn lemma_activated_stays_on(t: SlotToggle, slot: u64, later: u64, epoch_length: u64)
    requires
        epoch_length > 0,
        slot > t.slot_removed,
        later >= slot,
    ensures
        ({
            let s = toggle_state(SlotToggle { slot_added: slot, ..t }, later as int, epoch_length as int);
            s == SlotToggleState::WarmUp || s == SlotToggleState::Active
        }),
{
}

/// Once a toggle is switched off at a slot after it was last switched on, it is cooling
/// down or inactive at every later slot.
pub proof fn lemma_deactivated_stays_off(t: SlotToggle, slot: u64, later: u64, epoch_length: u64)
    requires
        epoch_length > 0,
        slot > t.slot_added,
        later >= slot,
    ensures
        ({
            let s = toggle_state(SlotToggle { slot_removed: slot, ..t }, later as int, epoch_length as int);
            s == SlotToggleState::Cooldown || s == SlotToggleState::Inactive
        }),
{
}

/// A toggle warms up for the rest of the epoch it is switched on in and all of the next,
/// and is active from the epoch after.
pub proof fn lemma_warm_up_takes_a_full_epoch(t: SlotToggle, slot: u64, later: u64, epoch_length: u64)
    requires
        epoch_length > 0,
        slot > t.slot_removed,
        later >= slot,
    ensures
        toggle_state(SlotToggle { slot_added: slot, ..t }, later as int, epoch_length as int) == SlotToggleState::Active
            <==> later / epoch_length > slot / epoch_length + 1,
{
}

/// A toggle that `deactivate` switches off, which it does only while the toggle is active,
/// is cooling down or inactive at that slot and every later one.
pub proof fn lemma_deactivate_stays_off(t: SlotToggle, slot: u64, later: u64, epoch_length: u64)
    requires
        epoch_length > 0,
        toggle_state(t, slot as int, epoch_length as int) == SlotToggleState::Active,
        later >= slot,
    ensures
        ({
            let s = toggle_state(SlotToggle { slot_removed: slot, ..t }, later as int, epoch_length as int);
            s == SlotToggleState::Cooldown || s == SlotToggleState::Inactive
        }),
{
    assert(slot > t.slot_added) by (nonlinear_arith)
        requires
            epoch_length > 0,
            (slot as int) / (epoch_length as int) > (t.slot_added as int) / (epoch_length as int) + 1,
    ;
    lemma_deactivated_stays_off(t, slot, later, epoch_length);
}

} // verus!
