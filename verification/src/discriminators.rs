//! Discriminators for vault accounts.
//! Values must not change as they are written on chain to determine the type of account.
use vstd::prelude::*;

verus! {

/// The kinds of account the vault program owns.
#[derive(Debug, Clone, Copy, PartialEq, Eq, Structural)]
pub enum VaultDiscriminator {
    Config,
    Vault,
    VaultNcnTicket,
    VaultOperatorDelegation,
    VaultNcnSlasherTicket,
    VaultNcnSlasherOperatorTicket,
    VaultStakerWithdrawalTicket,
    VaultUpdateStateTracker,
}

/// The byte written first in an account of each kind.
pub open spec fn discriminator_byte(d: VaultDiscriminator) -> u8 {
    match d {
        VaultDiscriminator::Config => 1,
        VaultDiscriminator::Vault => 2,
        VaultDiscriminator::VaultNcnTicket => 3,
        VaultDiscriminator::VaultOperatorDelegation => 4,
        VaultDiscriminator::VaultNcnSlasherTicket => 5,
        VaultDiscriminator::VaultNcnSlasherOperatorTicket => 6,
        VaultDiscriminator::VaultStakerWithdrawalTicket => 7,
        VaultDiscriminator::VaultUpdateStateTracker => 8,
    }
}

impl VaultDiscriminator {
    /// The byte that marks an account of this kind.
    pub fn value(&self) -> (r: u8)
        ensures
            r == discriminator_byte(*self),
    {
        match self {
            VaultDiscriminator::Config => 1,
            VaultDiscriminator::Vault => 2,
            VaultDiscriminator::VaultNcnTicket => 3,
            VaultDiscriminator::VaultOperatorDelegation => 4,
            VaultDiscriminator::VaultNcnSlasherTicket => 5,
            VaultDiscriminator::VaultNcnSlasherOperatorTicket => 6,
            VaultDiscriminator::VaultStakerWithdrawalTicket => 7,
            VaultDiscriminator::VaultUpdateStateTracker => 8,
        }
    }

    /// The kind of account that a first byte marks, if any.
    pub fn from_byte(b: u8) -> (r: Option<VaultDiscriminator>)
        ensures
            r matches Some(d) ==> discriminator_byte(d) == b,
            r is None <==> (b < 1 || b > 8),
    {
        match b {
            1 => Some(VaultDiscriminator::Config),
            2 => Some(VaultDiscriminator::Vault),
            3 => Some(VaultDiscriminator::VaultNcnTicket),
            4 => Some(VaultDiscriminator::VaultOperatorDelegation),
            5 => Some(VaultDiscriminator::VaultNcnSlasherTicket),
            6 => Some(VaultDiscriminator::VaultNcnSlasherOperatorTicket),
            7 => Some(VaultDiscriminator::VaultStakerWithdrawalTicket),
            8 => Some(VaultDiscriminator::VaultUpdateStateTracker),
            _ => None,
        }
    }
}

/// Two kinds of account never share a first byte.
pub proof fn lemma_discriminators_distinct(a: VaultDiscriminator, b: VaultDiscriminator)
    ensures
        discriminator_byte(a) == discriminator_byte(b) <==> a == b,
{
}

} // verus!
