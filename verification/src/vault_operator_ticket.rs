//! The [`VaultOperatorTicket`] tracks a vault's support for an operator. It can be enabled
//! and disabled over time by the vault's operator admin.
use vstd::prelude::*;
use vstd::string::*;
use crate::address::{Address, found_program_address, seed_from_str, try_find_program_address, lemma_bytes_deep_view};
use crate::slot_toggle::SlotToggle;

verus! {

#[derive(Debug, Clone, Copy, PartialEq, Eq)]
pub struct VaultOperatorTicket {
    pub vault: Address,
    pub operator: Address,
    pub index: u64,
    pub state: SlotToggle,
    pub bump: u8,
}

/// The seeds of the ticket of a vault for an operator.
pub open spec fn vault_operator_ticket_seeds(vault: Seq<u8>, operator: Seq<u8>) -> Seq<Seq<u8>> {
    seq!["vault_operator_ticket".spec_bytes(), vault, operator]
}

impl VaultOperatorTicket {
    pub fn new(vault: Address, operator: Address, index: u64, slot_added: u64, bump: u8) -> (r: Self)
        ensures
            r == (VaultOperatorTicket { vault, operator, index, state: SlotToggle { slot_added, slot_removed: slot_added }, bump }),
    {
        Self { vault, operator, index, state: SlotToggle::new(slot_added), bump }
    }

    /// The seeds for the PDA.
    pub fn seeds(vault: &Address, operator: &Address) -> (r: Vec<Vec<u8>>)
        ensures
            r.deep_view() == vault_operator_ticket_seeds(vault@, operator@),
    {
        let mut r: Vec<Vec<u8>> = Vec::new();
        r.push(seed_from_str("vault_operator_ticket"));
        let v = vault.to_vec();
        let o = operator.to_vec();
        proof {
            lemma_bytes_deep_view(v);
            lemma_bytes_deep_view(o);
        }
        r.push(v);
        r.push(o);
        assert(r.deep_view() =~= vault_operator_ticket_seeds(vault@, operator@));
        r
    }

    /// The program address, its bump seed and its seeds.
    pub fn find_program_address(program_id: &Address, vault: &Address, operator: &Address) -> (r: Option<(Address, u8, Vec<Vec<u8>>)>)
        ensures
            found_program_address(vault_operator_ticket_seeds(vault@, operator@), program_id@) matches Some((k, b))
                ==> (r matches Some(t) && t.0@ == k && t.1 == b && t.2.deep_view() == vault_operator_ticket_seeds(vault@, operator@)),
            found_program_address(vault_operator_ticket_seeds(vault@, operator@), program_id@) is None ==> r is None,
    {
        let seeds = Self::seeds(vault, operator);
        match try_find_program_address(&seeds, program_id) {
            Some((key, bump)) => Some((key, bump, seeds)),
            None => None,
        }
    }
}

} // verus!
