//! The [`VaultNcnSlasherOperatorTicket`] account tracks the amount an operator has been slashed
//! by a slasher for a given node consensus network (NCN) and vault for a given epoch.
use vstd::prelude::*;
use vstd::string::*;
use crate::account::{AccountView, found_key, load_outcome, load_program_account};
use crate::address::{Address, found_program_address, seed_from_str, try_find_program_address, lemma_bytes_deep_view};
use crate::error::ProgramError;

verus! {

/// The first byte of a vault NCN slasher operator ticket account.
pub const VAULT_NCN_SLASHER_OPERATOR_TICKET_DISCRIMINATOR: u8 = 6;

#[derive(Debug, Clone, Copy, PartialEq, Eq)]
pub struct VaultNcnSlasherOperatorTicket {
    /// The vault slashed
    pub vault: Address,
    /// The node consensus network slashed
    pub ncn: Address,
    /// The slasher
    pub slasher: Address,
    /// The operator
    pub operator: Address,
    /// The epoch
    pub epoch: u64,
    /// The amount slashed for the given epoch
    pub slashed: u64,
    /// The bump seed for the PDA
    pub bump: u8,
}

/// The seeds of the ticket of a vault, NCN, slasher and operator for an epoch.
pub open spec fn vault_ncn_slasher_operator_ticket_seeds(vault: Seq<u8>, ncn: Seq<u8>, slasher: Seq<u8>, operator: Seq<u8>, epoch: u64) -> Seq<Seq<u8>> {
    seq!["vault_ncn_slasher_operator".spec_bytes(), vault, ncn, slasher, operator, vstd::bytes::spec_u64_to_le_bytes(epoch)]
}

impl VaultNcnSlasherOperatorTicket {
    pub fn new(vault: Address, ncn: Address, slasher: Address, operator: Address, epoch: u64, bump: u8) -> (r: Self)
        ensures
            r == (VaultNcnSlasherOperatorTicket { vault, ncn, slasher, operator, epoch, slashed: 0, bump }),
    {
        Self { vault, ncn, slasher, operator, epoch, slashed: 0, bump }
    }

    /// The seeds for the PDA.
    pub fn seeds(vault: &Address, ncn: &Address, slasher: &Address, operator: &Address, epoch: u64) -> (r: Vec<Vec<u8>>)
        ensures
            r.deep_view() == vault_ncn_slasher_operator_ticket_seeds(vault@, ncn@, slasher@, operator@, epoch),
    {
        let mut r: Vec<Vec<u8>> = Vec::new();
        r.push(seed_from_str("vault_ncn_slasher_operator"));
        let s_vault = vault.to_vec();
        let s_ncn = ncn.to_vec();
        let s_slasher = slasher.to_vec();
        let s_operator = operator.to_vec();
        let s_epoch = vstd::bytes::u64_to_le_bytes(epoch);
        proof {
            lemma_bytes_deep_view(s_vault);
            lemma_bytes_deep_view(s_ncn);
            lemma_bytes_deep_view(s_slasher);
            lemma_bytes_deep_view(s_operator);
            lemma_bytes_deep_view(s_epoch);
        }
        r.push(s_vault);
        r.push(s_ncn);
        r.push(s_slasher);
        r.push(s_operator);
        r.push(s_epoch);
        assert(r.deep_view() =~= vault_ncn_slasher_operator_ticket_seeds(vault@, ncn@, slasher@, operator@, epoch));
        r
    }

    /// The program address, its bump seed and its seeds.
    pub fn find_program_address(program_id: &Address, vault: &Address, ncn: &Address, slasher: &Address, operator: &Address, epoch: u64) -> (r: Option<(Address, u8, Vec<Vec<u8>>)>)
        ensures
            found_program_address(vault_ncn_slasher_operator_ticket_seeds(vault@, ncn@, slasher@, operator@, epoch), program_id@) matches Some((k, b))
                ==> (r matches Some(t) && t.0@ == k && t.1 == b && t.2.deep_view() == vault_ncn_slasher_operator_ticket_seeds(vault@, ncn@, slasher@, operator@, epoch)),
            found_program_address(vault_ncn_slasher_operator_ticket_seeds(vault@, ncn@, slasher@, operator@, epoch), program_id@) is None ==> r is None,
    {
        let seeds = Self::seeds(vault, ncn, slasher, operator, epoch);
        match try_find_program_address(&seeds, program_id) {
            Some((key, bump)) => Some((key, bump, seeds)),
            None => None,
        }
    }

    /// Loads the account, checking its owner, data, discriminator and address.
    pub fn load(
        program_id: &Address,
        vault_ncn_slasher_operator_ticket: &AccountView,
        vault: &AccountView,
        ncn: &AccountView,
        slasher: &AccountView,
        operator: &AccountView,
        ncn_epoch: u64,
        expect_writable: bool,
    ) -> (r: Result<(), ProgramError>)
        ensures
            r == load_outcome(program_id@, *vault_ncn_slasher_operator_ticket, expect_writable, VAULT_NCN_SLASHER_OPERATOR_TICKET_DISCRIMINATOR,
                found_key(vault_ncn_slasher_operator_ticket_seeds(vault.key@, ncn.key@, slasher.key@, operator.key@, ncn_epoch), program_id@)),
    {
        let seeds = Self::seeds(&vault.key, &ncn.key, &slasher.key, &operator.key, ncn_epoch);
        load_program_account(program_id, vault_ncn_slasher_operator_ticket, expect_writable, VAULT_NCN_SLASHER_OPERATOR_TICKET_DISCRIMINATOR, &seeds)
    }
}

} // verus!
