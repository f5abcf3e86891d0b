//! The [`VaultNcnSlasherTicket`] account tracks a vault's support for a node consensus network
//! slasher. It can be enabled and disabled over time by the vault slasher admin.
use vstd::prelude::*;
use vstd::string::*;
use crate::account::{AccountView, found_key, load_outcome, load_program_account};
use crate::address::{Address, found_program_address, seed_from_str, try_find_program_address, lemma_bytes_deep_view};
use crate::error::ProgramError;
use crate::slot_toggle::SlotToggle;

verus! {

/// The first byte of a vault NCN slasher ticket account.
pub const VAULT_NCN_SLASHER_TICKET_DISCRIMINATOR: u8 = 5;

#[derive(Debug, Clone, Copy, PartialEq, Eq)]
pub struct VaultNcnSlasherTicket {
    /// The vault
    pub vault: Address,
    /// The NCN
    pub ncn: Address,
    /// The slasher
    pub slasher: Address,
    /// The maximum slashable per epoch per operator
    pub max_slashable_per_epoch: u64,
    /// The index
    pub index: u64,
    /// The slot toggle
    pub state: SlotToggle,
    /// The bump seed for the PDA
    pub bump: u8,
}

/// The seeds of the ticket of a vault for an NCN slasher.
pub open spec fn vault_ncn_slasher_ticket_seeds(vault: Seq<u8>, ncn: Seq<u8>, slasher: Seq<u8>) -> Seq<Seq<u8>> {
    seq!["vault_slasher_ticket".spec_bytes(), vault, ncn, slasher]
}

impl VaultNcnSlasherTicket {
    pub fn new(vault: Address, ncn: Address, slasher: Address, max_slashable_per_epoch: u64, index: u64, bump: u8) -> (r: Self)
        ensures
            r.vault == vault && r.ncn == ncn && r.slasher == slasher && r.bump == bump,
            r.max_slashable_per_epoch == max_slashable_per_epoch && r.index == index,
            r.state.slot_added == 0 && r.state.slot_removed == 0,
    {
        Self { vault, ncn, slasher, max_slashable_per_epoch, index, state: SlotToggle::new(0), bump }
    }

    pub fn index(&self) -> (r: u64)
        ensures
            r == self.index,
    {
        self.index
    }

    pub fn max_slashable_per_epoch(&self) -> (r: u64)
        ensures
            r == self.max_slashable_per_epoch,
    {
        self.max_slashable_per_epoch
    }

    /// The seeds for the PDA.
    pub fn seeds(vault: &Address, ncn: &Address, slasher: &Address) -> (r: Vec<Vec<u8>>)
        ensures
            r.deep_view() == vault_ncn_slasher_ticket_seeds(vault@, ncn@, slasher@),
    {
        let mut r: Vec<Vec<u8>> = Vec::new();
        r.push(seed_from_str("vault_slasher_ticket"));
        let s_vault = vault.to_vec();
        let s_ncn = ncn.to_vec();
        let s_slasher = slasher.to_vec();
        proof {
            lemma_bytes_deep_view(s_vault);
            lemma_bytes_deep_view(s_ncn);
            lemma_bytes_deep_view(s_slasher);
        }
        r.push(s_vault);
        r.push(s_ncn);
        r.push(s_slasher);
        assert(r.deep_view() =~= vault_ncn_slasher_ticket_seeds(vault@, ncn@, slasher@));
        r
    }

    /// The program address, its bump seed and its seeds.
    pub fn find_program_address(program_id: &Address, vault: &Address, ncn: &Address, slasher: &Address) -> (r: Option<(Address, u8, Vec<Vec<u8>>)>)
        ensures
            found_program_address(vault_ncn_slasher_ticket_seeds(vault@, ncn@, slasher@), program_id@) matches Some((k, b))
                ==> (r matches Some(t) && t.0@ == k && t.1 == b && t.2.deep_view() == vault_ncn_slasher_ticket_seeds(vault@, ncn@, slasher@)),
            found_program_address(vault_ncn_slasher_ticket_seeds(vault@, ncn@, slasher@), program_id@) is None ==> r is None,
    {
        let seeds = Self::seeds(vault, ncn, slasher);
        match try_find_program_address(&seeds, program_id) {
            Some((key, bump)) => Some((key, bump, seeds)),
            None => None,
        }
    }

    /// Loads the account, checking its owner, data, discriminator and address.
    pub fn load(
        program_id: &Address,
        vault_ncn_slasher_ticket: &AccountView,
        vault: &AccountView,
        ncn: &AccountView,
        slasher: &AccountView,
        expect_writable: bool,
    ) -> (r: Result<(), ProgramError>)
        ensures
            r == load_outcome(program_id@, *vault_ncn_slasher_ticket, expect_writable, VAULT_NCN_SLASHER_TICKET_DISCRIMINATOR,
                found_key(vault_ncn_slasher_ticket_seeds(vault.key@, ncn.key@, slasher.key@), program_id@)),
    {
        let seeds = Self::seeds(&vault.key, &ncn.key, &slasher.key);
        load_program_account(program_id, vault_ncn_slasher_ticket, expect_writable, VAULT_NCN_SLASHER_TICKET_DISCRIMINATOR, &seeds)
    }
}

} // verus!
