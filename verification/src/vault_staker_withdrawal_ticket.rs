//! The [`VaultStakerWithdrawalTicket`] account represents a pending withdrawal from a vault
//! by a staker. For every withdrawal ticket, there's an associated token account owned by
//! the withdrawal ticket with the staker's VRT.
use vstd::prelude::*;
use vstd::string::*;
use crate::account::{AccountView, found_key, load_outcome};
use crate::address::{Address, address_at, found_program_address, seed_from_str, try_find_program_address, lemma_bytes_deep_view};
use crate::error::{ProgramError, VaultError, program_error_of};

verus! {

/// The first byte of a staker withdrawal ticket account.
pub const VAULT_STAKER_WITHDRAWAL_TICKET_DISCRIMINATOR: u8 = 7;

/// The length of a staker withdrawal ticket account's data: an 8-byte header and the
/// ticket's fields.
pub const VAULT_STAKER_WITHDRAWAL_TICKET_ACCOUNT_LEN: usize = 384;

/// Where the ticket's base address sits in its account data.
pub const VAULT_STAKER_WITHDRAWAL_TICKET_BASE_OFFSET: usize = 72;

#[derive(Debug, Clone, Copy, PartialEq, Eq)]
pub struct VaultStakerWithdrawalTicket {
    /// The vault being withdrawn from
    pub vault: Address,
    /// The staker withdrawing from the vault
    pub staker: Address,
    /// The base account used as a PDA seed
    pub base: Address,
    /// The amount of VRT held in the ticket's token account at the time of creation.
    pub vrt_amount: u64,
    /// The slot the withdrawal was enqueued
    pub slot_unstaked: u64,
    /// The bump seed used to create the PDA
    pub bump: u8,
}

/// The seeds of a withdrawal ticket of a vault with a base.
pub open spec fn vault_staker_withdrawal_ticket_seeds(vault: Seq<u8>, base: Seq<u8>) -> Seq<Seq<u8>> {
    seq!["vault_staker_withdrawal_ticket".spec_bytes(), vault, base]
}

impl VaultStakerWithdrawalTicket {
    pub fn new(vault: Address, staker: Address, base: Address, vrt_amount: u64, slot_unstaked: u64, bump: u8) -> (r: Self)
        ensures
            r == (VaultStakerWithdrawalTicket { vault, staker, base, vrt_amount, slot_unstaked, bump }),
    {
        Self { vault, staker, base, vrt_amount, slot_unstaked, bump }
    }

    pub fn vrt_amount(&self) -> (r: u64)
        ensures
            r == self.vrt_amount,
    {
        self.vrt_amount
    }

    pub fn slot_unstaked(&self) -> (r: u64)
        ensures
            r == self.slot_unstaked,
    {
        self.slot_unstaked
    }

    /// Checks that the staker owns the ticket.
    pub fn check_staker(&self, staker: &Address) -> (r: Result<(), VaultError>)
        ensures
            r is Ok <==> self.staker@ == staker@,
            r matches Err(e) ==> e == VaultError::VaultStakerWithdrawalTicketInvalidStaker,
    {
        if !self.staker.equals(staker) {
            return Err(VaultError::VaultStakerWithdrawalTicketInvalidStaker);
        }
        Ok(())
    }

    /// A ticket is withdrawable once more than one full epoch has passed since unstaking.
    pub fn is_withdrawable(&self, slot: u64, epoch_length: u64) -> (r: Result<bool, ProgramError>)
        ensures
            r is Ok <==> (epoch_length > 0 && self.slot_unstaked / epoch_length < u64::MAX),
            r matches Ok(b) ==> b == (slot / epoch_length > self.slot_unstaked / epoch_length + 1),
            r matches Err(e) ==> (if epoch_length == 0 {
                e == program_error_of(VaultError::DivisionByZero)
            } else {
                e == program_error_of(VaultError::ArithmeticOverflow)
            }),
    {
        if epoch_length == 0 {
            return Err(ProgramError::from(VaultError::DivisionByZero));
        }
        let current_epoch = slot / epoch_length;
        let epoch_unstaked = self.slot_unstaked / epoch_length;
        if epoch_unstaked == u64::MAX {
            return Err(ProgramError::from(VaultError::ArithmeticOverflow));
        }
        if current_epoch <= epoch_unstaked + 1 {
            Ok(false)
        } else {
            Ok(true)
        }
    }

    /// The seeds of the ticket of a vault with a base.
    pub fn seeds(vault: &Address, base: &Address) -> (r: Vec<Vec<u8>>)
        ensures
            r.deep_view() == vault_staker_withdrawal_ticket_seeds(vault@, base@),
    {
        let mut r: Vec<Vec<u8>> = Vec::new();
        r.push(seed_from_str("vault_staker_withdrawal_ticket"));
        let v = vault.to_vec();
        let b = base.to_vec();
        proof {
            lemma_bytes_deep_view(v);
            lemma_bytes_deep_view(b);
        }
        r.push(v);
        r.push(b);
        assert(r.deep_view() =~= vault_staker_withdrawal_ticket_seeds(vault@, base@));
        r
    }

    /// The program address of the ticket, its bump seed and its seeds.
    pub fn find_program_address(program_id: &Address, vault: &Address, base: &Address) -> (r: Option<(Address, u8, Vec<Vec<u8>>)>)
        ensures
            found_program_address(vault_staker_withdrawal_ticket_seeds(vault@, base@), program_id@) matches Some((k, b))
                ==> (r matches Some(t) && t.0@ == k && t.1 == b && t.2.deep_view() == vault_staker_withdrawal_ticket_seeds(vault@, base@)),
            found_program_address(vault_staker_withdrawal_ticket_seeds(vault@, base@), program_id@) is None ==> r is None,
    {
        let seeds = Self::seeds(vault, base);
        match try_find_program_address(&seeds, program_id) {
            Some((key, bump)) => Some((key, bump, seeds)),
            None => None,
        }
    }

    /// Loads a withdrawal ticket account: it must be owned by the program, hold data, be
    /// writable when that is expected, start with the ticket discriminator and have a
    /// ticket's length, and sit at the program address for the vault and the base it records.
    pub fn load(program_id: &Address, ticket: &AccountView, vault: &AccountView, expect_writable: bool) -> (r: Result<(), ProgramError>)
        ensures
            r == (if load_outcome(program_id@, *ticket, expect_writable, VAULT_STAKER_WITHDRAWAL_TICKET_DISCRIMINATOR, Some(ticket.key@)) is Err {
                load_outcome(program_id@, *ticket, expect_writable, VAULT_STAKER_WITHDRAWAL_TICKET_DISCRIMINATOR, Some(ticket.key@))
            } else if ticket.data@.len() != VAULT_STAKER_WITHDRAWAL_TICKET_ACCOUNT_LEN {
                Err(ProgramError::InvalidAccountData)
            } else if found_key(
                vault_staker_withdrawal_ticket_seeds(
                    vault.key@,
                    ticket.data@.subrange(VAULT_STAKER_WITHDRAWAL_TICKET_BASE_OFFSET as int, VAULT_STAKER_WITHDRAWAL_TICKET_BASE_OFFSET + 32),
                ),
                program_id@,
            ) != Some(ticket.key@) {
                Err(ProgramError::InvalidAccountData)
            } else {
                Ok(())
            }),
    {
        if !ticket.owner.equals(program_id) {
            return Err(ProgramError::InvalidAccountOwner);
        }
        if ticket.data_is_empty() {
            return Err(ProgramError::InvalidAccountData);
        }
        if expect_writable && !ticket.is_writable {
            return Err(ProgramError::InvalidAccountData);
        }
        if ticket.data[0] != VAULT_STAKER_WITHDRAWAL_TICKET_DISCRIMINATOR {
            return Err(ProgramError::InvalidAccountData);
        }
        if ticket.data.len() != VAULT_STAKER_WITHDRAWAL_TICKET_ACCOUNT_LEN {
            return Err(ProgramError::InvalidAccountData);
        }
        let base = address_at(ticket.data.as_slice(), VAULT_STAKER_WITHDRAWAL_TICKET_BASE_OFFSET);
        match Self::find_program_address(program_id, &vault.key, &base) {
            Some((key, _, _)) => {
                if key.equals(&ticket.key) {
                    Ok(())
                } else {
                    Err(ProgramError::InvalidAccountData)
                }
            },
            None => Err(ProgramError::InvalidAccountData),
        }
    }
}

} // verus!
