//! An uninitialized, data-less account that holds the VRT minted at vault creation, so
//! that the VRT supply never returns to zero.
use vstd::prelude::*;
use vstd::string::*;
use crate::account::{AccountView, found_key};
use crate::address::{Address, found_program_address, seed_from_str, try_find_program_address, lemma_bytes_deep_view, zero_key};
use crate::error::ProgramError;

verus! {

/// Uninitialized, no-data account owned by the system program.
#[derive(Debug, Clone, Copy, PartialEq, Eq, Structural)]
pub struct BurnVault {}

/// The seeds of the burn vault of a base.
pub open spec fn burn_vault_seeds(base: Seq<u8>) -> Seq<Seq<u8>> {
    seq!["burn_vault".spec_bytes(), base]
}

impl BurnVault {
    /// The seeds for the PDA.
    pub fn seeds(base: &Address) -> (r: Vec<Vec<u8>>)
        ensures
            r.deep_view() == burn_vault_seeds(base@),
    {
        let mut r: Vec<Vec<u8>> = Vec::new();
        r.push(seed_from_str("burn_vault"));
        let b = base.to_vec();
        proof {
            lemma_bytes_deep_view(b);
        }
        r.push(b);
        assert(r.deep_view() =~= burn_vault_seeds(base@));
        r
    }

    /// The program address of the burn vault, its bump seed and its seeds.
    pub fn find_program_address(program_id: &Address, base: &Address) -> (r: Option<(Address, u8, Vec<Vec<u8>>)>)
        ensures
            found_program_address(burn_vault_seeds(base@), program_id@) matches Some((k, b)) ==> (r matches Some(t)
                && t.0@ == k && t.1 == b && t.2.deep_view() == burn_vault_seeds(base@)),
            found_program_address(burn_vault_seeds(base@), program_id@) is None ==> r is None,
    {
        let seeds = Self::seeds(base);
        match try_find_program_address(&seeds, program_id) {
            Some((key, bump)) => Some((key, bump, seeds)),
            None => None,
        }
    }

    /// Loads the burn vault: it must be owned by the system program, be writable when
    /// that is expected, and sit at the program address of the base.
    pub fn load(program_id: &Address, base: &Address, account: &AccountView, expect_writable: bool) -> (r: Result<(), ProgramError>)
        ensures
            r == (if account.owner@ != zero_key() {
                Err(ProgramError::InvalidAccountOwner)
            } else if expect_writable && !account.is_writable {
                Err(ProgramError::InvalidAccountData)
            } else if found_key(burn_vault_seeds(base@), program_id@) != Some(account.key@) {
                Err(ProgramError::InvalidAccountData)
            } else {
                Ok(())
            }),
    {
        if !account.owner.is_zero() {
            return Err(ProgramError::InvalidAccountOwner);
        }
        if expect_writable && !account.is_writable {
            return Err(ProgramError::InvalidAccountData);
        }
        match Self::find_program_address(program_id, base) {
            Some((key, _, _)) => {
                if key.equals(&account.key) {
                    Ok(())
                } else {
                    Err(ProgramError::InvalidAccountData)
                }
            },
            None => Err(ProgramError::InvalidAccountData),
        }
    }
}

} // verus!
