//! Checks on the accounts an instruction is handed that are not accounts of the program:
//! signers, accounts of the system program, and programs.
use vstd::prelude::*;
use crate::account::AccountView;
use vstd::string::*;
use crate::account::found_key;
use crate::address::{Address, zero_key, seed_from_str, try_find_program_address, lemma_bytes_deep_view};
use crate::error::ProgramError;

verus! {

/// Checks that the account signed, and is writable when that is expected.
pub fn load_signer(account: &AccountView, expect_writable: bool) -> (r: Result<(), ProgramError>)
    ensures
        r is Ok <==> (account.is_signer && (!expect_writable || account.is_writable)),
        r matches Err(e) ==> (if !account.is_signer {
            e == ProgramError::MissingRequiredSignature
        } else {
            e == ProgramError::InvalidAccountData
        }),
{
    if !account.is_signer {
        return Err(ProgramError::MissingRequiredSignature);
    }
    if expect_writable && !account.is_writable {
        return Err(ProgramError::InvalidAccountData);
    }
    Ok(())
}

/// Checks that the account is an empty account of the system program (whose id is the
/// zero key), writable when that is expected.
pub fn load_system_account(account: &AccountView, expect_writable: bool) -> (r: Result<(), ProgramError>)
    ensures
        r is Ok <==> (account.owner@ == zero_key() && account.data@.len() == 0 && (!expect_writable || account.is_writable)),
        r matches Err(e) ==> (if account.owner@ != zero_key() {
            e == ProgramError::InvalidAccountOwner
        } else if account.data@.len() != 0 {
            e == ProgramError::AccountAlreadyInitialized
        } else {
            e == ProgramError::InvalidAccountData
        }),
{
    if !account.owner.is_zero() {
        return Err(ProgramError::InvalidAccountOwner);
    }
    if !account.data_is_empty() {
        return Err(ProgramError::AccountAlreadyInitialized);
    }
    if expect_writable && !account.is_writable {
        return Err(ProgramError::InvalidAccountData);
    }
    Ok(())
}

/// Checks that the account is the program with the given id.
pub fn load_program(account: &AccountView, program_id: &Address) -> (r: Result<(), ProgramError>)
    ensures
        r is Ok <==> account.key@ == program_id@,
        r matches Err(e) ==> e == ProgramError::IncorrectProgramId,
{
    if !account.key.equals(program_id) {
        return Err(ProgramError::IncorrectProgramId);
    }
    Ok(())
}

/// Checks that the account is the system program, whose id is the zero key.
pub fn load_system_program(account: &AccountView) -> (r: Result<(), ProgramError>)
    ensures
        r is Ok <==> account.key@ == zero_key(),
        r matches Err(e) ==> e == ProgramError::IncorrectProgramId,
{
    if !account.key.is_zero() {
        return Err(ProgramError::IncorrectProgramId);
    }
    Ok(())
}

/// Checks that the account is the token metadata program, whose id is handed in.
pub fn load_mpl_metadata_program(info: &AccountView, metadata_program_id: &Address) -> (r: Result<(), ProgramError>)
    ensures
        r is Ok <==> info.key@ == metadata_program_id@,
        r matches Err(e) ==> e == ProgramError::IncorrectProgramId,
{
    load_program(info, metadata_program_id)
}

/// The seeds of the metadata account of a mint.
pub open spec fn metadata_seeds(metadata_program_id: Seq<u8>, mint: Seq<u8>) -> Seq<Seq<u8>> {
    seq!["metadata".spec_bytes(), metadata_program_id, mint]
}

/// Checks that the account is the metadata account of the VRT mint: the program address
/// of the mint under the token metadata program.
pub fn load_mpl_metadata(info: &AccountView, vrt_mint: &Address, metadata_program_id: &Address) -> (r: Result<(), ProgramError>)
    ensures
        r is Ok <==> found_key(metadata_seeds(metadata_program_id@, vrt_mint@), metadata_program_id@) == Some(info.key@),
        r matches Err(e) ==> e == ProgramError::InvalidAccountData,
{
    let mut seeds: Vec<Vec<u8>> = Vec::new();
    seeds.push(seed_from_str("metadata"));
    let p = metadata_program_id.to_vec();
    let m = vrt_mint.to_vec();
    proof {
        lemma_bytes_deep_view(p);
        lemma_bytes_deep_view(m);
    }
    seeds.push(p);
    seeds.push(m);
    assert(seeds.deep_view() =~= metadata_seeds(metadata_program_id@, vrt_mint@));
    match try_find_program_address(&seeds, metadata_program_id) {
        Some((key, _)) => {
            if key.equals(&info.key) {
                Ok(())
            } else {
                Err(ProgramError::InvalidAccountData)
            }
        },
        None => Err(ProgramError::InvalidAccountData),
    }
}

} // verus!
