//! The [`VaultAvsSlasherOperatorTicket`] records how much a slasher of an AVS has slashed
//! an operator of the vault in an epoch.
use vstd::prelude::*;
use vstd::string::*;
use crate::address::{Address, found_program_address, seed_from_str, try_find_program_address, lemma_bytes_deep_view};
use crate::result::VaultCoreError;

verus! {

#[derive(Debug, Clone, Copy, PartialEq, Eq)]
pub struct VaultAvsSlasherOperatorTicket {
    pub vault: Address,
    pub avs: Address,
    pub slasher: Address,
    pub operator: Address,
    pub epoch: u64,
    /// The amount slashed in the epoch
    pub slashed: u64,
    pub bump: u8,
}

/// The seeds of the ticket of a vault, AVS, slasher and operator for an epoch.
pub open spec fn vault_avs_slasher_operator_ticket_seeds(vault: Seq<u8>, avs: Seq<u8>, slasher: Seq<u8>, operator: Seq<u8>, epoch: u64) -> Seq<Seq<u8>> {
    seq!["vault_avs_slasher_operator".spec_bytes(), vault, avs, slasher, operator, vstd::bytes::spec_u64_to_le_bytes(epoch)]
}

impl VaultAvsSlasherOperatorTicket {
    pub fn new(vault: Address, avs: Address, slasher: Address, operator: Address, epoch: u64, slashed: u64, bump: u8) -> (r: Self)
        ensures
            r == (VaultAvsSlasherOperatorTicket { vault, avs, slasher, operator, epoch, slashed, bump }),
    {
        Self { vault, avs, slasher, operator, epoch, slashed, bump }
    }

    pub fn vault(&self) -> (r: Address)
        ensures
            r == self.vault,
    {
        self.vault
    }

    pub fn avs(&self) -> (r: Address)
        ensures
            r == self.avs,
    {
        self.avs
    }

    pub fn slasher(&self) -> (r: Address)
        ensures
            r == self.slasher,
    {
        self.slasher
    }

    pub fn operator(&self) -> (r: Address)
        ensures
            r == self.operator,
    {
        self.operator
    }

    pub fn epoch(&self) -> (r: u64)
        ensures
            r == self.epoch,
    {
        self.epoch
    }

    pub fn slashed(&self) -> (r: u64)
        ensures
            r == self.slashed,
    {
        self.slashed
    }

    pub fn bump(&self) -> (r: u8)
        ensures
            r == self.bump,
    {
        self.bump
    }

    /// Adds to the amount slashed in the epoch.
    pub fn increment_slashed_amount(&mut self, amount: u64) -> (r: Result<(), VaultCoreError>)
        ensures
            r is Ok <==> old(self).slashed + amount <= u64::MAX,
            r is Ok ==> *final(self) == (VaultAvsSlasherOperatorTicket { slashed: (old(self).slashed + amount) as u64, ..*old(self) }),
            r matches Err(e) ==> e == VaultCoreError::VaultAvsSlasherOperatorOverflow && *final(self) == *old(self),
    {
        match self.slashed.checked_add(amount) {
            Some(s) => {
                self.slashed = s;
                Ok(())
            },
            None => Err(VaultCoreError::VaultAvsSlasherOperatorOverflow),
        }
    }

    /// Checks that slashing `slash_amount` more keeps the epoch's slashing within the most
    /// a slasher may slash in an epoch.
    pub fn check_max_slashable_not_exceeded(&self, slash_amount: u64, max_slashable_per_epoch: u64) -> (r: Result<(), VaultCoreError>)
        ensures
            r is Ok <==> self.slashed + slash_amount <= max_slashable_per_epoch,
            r matches Err(e) ==> (if self.slashed + slash_amount > u64::MAX {
                e == VaultCoreError::VaultAvsSlasherOperatorOverflow
            } else {
                e == VaultCoreError::VaultAvsSlasherOperatorMaxSlashableExceeded
            }),
    {
        match self.slashed.checked_add(slash_amount) {
            Some(total) => {
                if total > max_slashable_per_epoch {
                    return Err(VaultCoreError::VaultAvsSlasherOperatorMaxSlashableExceeded);
                }
                Ok(())
            },
            None => Err(VaultCoreError::VaultAvsSlasherOperatorOverflow),
        }
    }

    /// The seeds for the PDA.
    pub fn seeds(vault: &Address, avs: &Address, slasher: &Address, operator: &Address, epoch: u64) -> (r: Vec<Vec<u8>>)
        ensures
            r.deep_view() == vault_avs_slasher_operator_ticket_seeds(vault@, avs@, slasher@, operator@, epoch),
    {
        let mut r: Vec<Vec<u8>> = Vec::new();
        r.push(seed_from_str("vault_avs_slasher_operator"));
        let s_vault = vault.to_vec();
        let s_avs = avs.to_vec();
        let s_slasher = slasher.to_vec();
        let s_operator = operator.to_vec();
        let s_epoch = vstd::bytes::u64_to_le_bytes(epoch);
        proof {
            lemma_bytes_deep_view(s_vault);
            lemma_bytes_deep_view(s_avs);
            lemma_bytes_deep_view(s_slasher);
            lemma_bytes_deep_view(s_operator);
            lemma_bytes_deep_view(s_epoch);
        }
        r.push(s_vault);
        r.push(s_avs);
        r.push(s_slasher);
        r.push(s_operator);
        r.push(s_epoch);
        assert(r.deep_view() =~= vault_avs_slasher_operator_ticket_seeds(vault@, avs@, slasher@, operator@, epoch));
        r
    }

    /// The program address, its bump seed and its seeds.
    pub fn find_program_address(program_id: &Address, vault: &Address, avs: &Address, slasher: &Address, operator: &Address, epoch: u64) -> (r: Option<(Address, u8, Vec<Vec<u8>>)>)
        ensures
            found_program_address(vault_avs_slasher_operator_ticket_seeds(vault@, avs@, slasher@, operator@, epoch), program_id@) matches Some((k, b))
                ==> (r matches Some(t) && t.0@ == k && t.1 == b && t.2.deep_view() == vault_avs_slasher_operator_ticket_seeds(vault@, avs@, slasher@, operator@, epoch)),
            found_program_address(vault_avs_slasher_operator_ticket_seeds(vault@, avs@, slasher@, operator@, epoch), program_id@) is None ==> r is None,
    {
        let seeds = Self::seeds(vault, avs, slasher, operator, epoch);
        match try_find_program_address(&seeds, program_id) {
            Some((key, bump)) => Some((key, bump, seeds)),
            None => None,
        }
    }
}

} // verus!
