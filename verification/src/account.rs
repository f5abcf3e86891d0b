//! What the vault program reads of an account it is handed.
use vstd::prelude::*;
use crate::address::{Address, found_program_address, try_find_program_address};
use crate::error::ProgramError;

verus! {

/// The key, owner, flags and data of an account, as plain values.
#[derive(Debug, Clone)]
pub struct AccountView {
    pub key: Address,
    pub owner: Address,
    pub is_signer: bool,
    pub is_writable: bool,
    pub data: Vec<u8>,
}

impl AccountView {
    /// Whether the account holds no data.
    pub fn data_is_empty(&self) -> (r: bool)
        ensures
            r == (self.data@.len() == 0),
    {
        self.data.len() == 0
    }
}

/// The address found for the seeds, without its bump seed.
pub open spec fn found_key(seeds: Seq<Seq<u8>>, program_id: Seq<u8>) -> Option<Seq<u8>> {
    match found_program_address(seeds, program_id) {
        Some((k, _)) => Some(k),
        None => None,
    }
}

/// The outcome of loading an account of the program: it must be owned by the
/// program, hold data, be writable when that is expected, start with the expected
/// discriminator, and sit at the expected address.
pub open spec fn load_outcome(
    program_id: Seq<u8>,
    account: AccountView,
    expect_writable: bool,
    discriminator: u8,
    expected_key: Option<Seq<u8>>,
) -> Result<(), ProgramError> {
    if account.owner@ != program_id {
        Err(ProgramError::InvalidAccountOwner)
    } else if account.data@.len() == 0 {
        Err(ProgramError::InvalidAccountData)
    } else if expect_writable && !account.is_writable {
        Err(ProgramError::InvalidAccountData)
    } else if account.data@[0] != discriminator {
        Err(ProgramError::InvalidAccountData)
    } else if expected_key != Some(account.key@) {
        Err(ProgramError::InvalidAccountData)
    } else {
        Ok(())
    }
}

/// Checks that the account is a program account of the given kind at the
/// program address derived from the seeds.
pub fn load_program_account(
    program_id: &Address,
    account: &AccountView,
    expect_writable: bool,
    discriminator: u8,
    seeds: &Vec<Vec<u8>>,
) -> (r: Result<(), ProgramError>)
    ensures
        r == load_outcome(program_id@, *account, expect_writable, discriminator, found_key(seeds.deep_view(), program_id@)),
{
    if !account.owner.equals(program_id) {
        return Err(ProgramError::InvalidAccountOwner);
    }
    if account.data_is_empty() {
        return Err(ProgramError::InvalidAccountData);
    }
    if expect_writable && !account.is_writable {
        return Err(ProgramError::InvalidAccountData);
    }
    if account.data[0] != discriminator {
        return Err(ProgramError::InvalidAccountData);
    }
    match try_find_program_address(seeds, program_id) {
        Some((key, _)) => {
            if key.equals(&account.key) {
                Ok(())
            } else {
                Err(ProgramError::InvalidAccountData)
            }
        },
        None => Err(ProgramError::InvalidAccountData),
    }
}

} // verus!
