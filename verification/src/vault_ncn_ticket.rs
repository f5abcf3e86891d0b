//! The [`VaultNcnTicket`] account tracks a vault supporting a node consensus network. It can be
//! enabled and disabled over time by the vault NCN admin.
use vstd::prelude::*;
use vstd::string::*;
use crate::account::{AccountView, found_key, load_outcome, load_program_account};
use crate::address::{Address, found_program_address, seed_from_str, try_find_program_address, lemma_bytes_deep_view};
use crate::error::ProgramError;
use crate::slot_toggle::SlotToggle;

verus! {

/// The first byte of a vault NCN ticket account.
pub const VAULT_NCN_TICKET_DISCRIMINATOR: u8 = 3;

/// The length of an NCN ticket account's data: an 8-byte header and the ticket's fields.
pub const VAULT_NCN_TICKET_ACCOUNT_LEN: usize = 392;

#[derive(Debug, Clone, Copy, PartialEq, Eq)]
pub struct VaultNcnTicket {
    /// The vault account
    pub vault: Address,
    /// The ncn account
    pub ncn: Address,
    /// The index
    pub index: u64,
    /// The slot toggle
    pub state: SlotToggle,
    /// The bump seed for the PDA
    pub bump: u8,
}

/// The seeds of the ticket of a vault for an NCN.
pub open spec fn vault_ncn_ticket_seeds(vault: Seq<u8>, ncn: Seq<u8>) -> Seq<Seq<u8>> {
    seq!["vault_ncn_ticket".spec_bytes(), vault, ncn]
}

impl VaultNcnTicket {
    pub fn new(vault: Address, ncn: Address, index: u64, bump: u8, slot: u64) -> (r: Self)
        ensures
            r.vault == vault && r.ncn == ncn && r.index == index && r.bump == bump,
            r.state.slot_added == slot && r.state.slot_removed == slot,
    {
        Self { vault, ncn, index, state: SlotToggle::new(slot), bump }
    }

    pub fn index(&self) -> (r: u64)
        ensures
            r == self.index,
    {
        self.index
    }

    /// The seeds for the PDA.
    pub fn seeds(vault: &Address, ncn: &Address) -> (r: Vec<Vec<u8>>)
        ensures
            r.deep_view() == vault_ncn_ticket_seeds(vault@, ncn@),
    {
        let mut r: Vec<Vec<u8>> = Vec::new();
        r.push(seed_from_str("vault_ncn_ticket"));
        let s_vault = vault.to_vec();
        let s_ncn = ncn.to_vec();
        proof {
            lemma_bytes_deep_view(s_vault);
            lemma_bytes_deep_view(s_ncn);
        }
        r.push(s_vault);
        r.push(s_ncn);
        assert(r.deep_view() =~= vault_ncn_ticket_seeds(vault@, ncn@));
        r
    }

    /// The program address, its bump seed and its seeds.
    pub fn find_program_address(program_id: &Address, vault: &Address, ncn: &Address) -> (r: Option<(Address, u8, Vec<Vec<u8>>)>)
        ensures
            found_program_address(vault_ncn_ticket_seeds(vault@, ncn@), program_id@) matches Some((k, b))
                ==> (r matches Some(t) && t.0@ == k && t.1 == b && t.2.deep_view() == vault_ncn_ticket_seeds(vault@, ncn@)),
            found_program_address(vault_ncn_ticket_seeds(vault@, ncn@), program_id@) is None ==> r is None,
    {
        let seeds = Self::seeds(vault, ncn);
        match try_find_program_address(&seeds, program_id) {
            Some((key, bump)) => Some((key, bump, seeds)),
            None => None,
        }
    }

    /// Loads the account, checking its owner, data, discriminator and address.
    pub fn load(
        program_id: &Address,
        vault_ncn_ticket: &AccountView,
        vault: &AccountView,
        ncn: &AccountView,
        expect_writable: bool,
    ) -> (r: Result<(), ProgramError>)
        ensures
            r == load_outcome(program_id@, *vault_ncn_ticket, expect_writable, VAULT_NCN_TICKET_DISCRIMINATOR,
                found_key(vault_ncn_ticket_seeds(vault.key@, ncn.key@), program_id@)),
    {
        let seeds = Self::seeds(&vault.key, &ncn.key);
        load_program_account(program_id, vault_ncn_ticket, expect_writable, VAULT_NCN_TICKET_DISCRIMINATOR, &seeds)
    }
}

} // verus!
