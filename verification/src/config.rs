//! The vault configuration account: program-wide settings and state.
use vstd::prelude::*;
use vstd::string::*;
use crate::account::{AccountView, found_key, load_outcome, load_program_account};
use crate::address::{Address, found_program_address, seed_from_str, try_find_program_address, found_view};
use crate::error::{ProgramError, VaultError};
use crate::math::{ceil_div, mul_wide, ceil_div_u128};

verus! {

/// The number of slots in an epoch unless configured otherwise
/// (two days of ticks at 64 ticks per slot).
pub const DEFAULT_SLOTS_PER_EPOCH: u64 = 432_000;

/// Maximum fee cap in basis points (2%).
pub const DEFAULT_FEES_CAP_BPS: u16 = 2_000;

/// Maximum rate of change in fee basis points per epoch (25%).
pub const DEFAULT_FEE_RATE_OF_CHANGE_BPS: u16 = 2_500;

/// Maximum bump in fee change above the rate of change (0.1%).
pub const DEFAULT_FEE_BUMP_BPS: u16 = 10;

/// The first byte of a config account.
pub const CONFIG_DISCRIMINATOR: u8 = 1;

/// The vault configuration account for the vault program.
#[derive(Debug, Clone, Copy, PartialEq, Eq)]
pub struct Config {
    /// The configuration admin
    pub admin: Address,
    /// The approved restaking program for this vault
    pub restaking_program: Address,
    /// The length of an epoch in slots
    pub epoch_length: u64,
    /// The number of vaults managed by the program
    pub num_vaults: u64,
    /// The fee cap in basis points ( withdraw and deposit )
    pub fee_cap_bps: u16,
    /// The maximum amount a fee can increase per epoch in basis points
    pub fee_rate_of_change_bps: u16,
    /// The amount a fee can increase above the rate of change in basis points
    pub fee_bump_bps: u16,
    /// The bump seed for the PDA
    pub bump: u8,
}

/// `amount * bps / 10_000`, rounded up.
pub open spec fn bps_fee(amount: int, bps: int) -> int {
    ceil_div(amount * bps, 10_000)
}

/// The seeds of the config account.
pub open spec fn config_seeds() -> Seq<Seq<u8>> {
    seq!["config".spec_bytes()]
}

impl Config {
    pub fn new(admin: Address, restaking_program: Address, bump: u8) -> (r: Self)
        ensures
            r == (Config {
                admin,
                restaking_program,
                epoch_length: DEFAULT_SLOTS_PER_EPOCH,
                num_vaults: 0,
                fee_cap_bps: DEFAULT_FEES_CAP_BPS,
                fee_rate_of_change_bps: DEFAULT_FEE_RATE_OF_CHANGE_BPS,
                fee_bump_bps: DEFAULT_FEE_BUMP_BPS,
                bump,
            }),
    {
        Self {
            admin,
            restaking_program,
            epoch_length: DEFAULT_SLOTS_PER_EPOCH,
            num_vaults: 0,
            fee_cap_bps: DEFAULT_FEES_CAP_BPS,
            fee_rate_of_change_bps: DEFAULT_FEE_RATE_OF_CHANGE_BPS,
            fee_bump_bps: DEFAULT_FEE_BUMP_BPS,
            bump,
        }
    }

    /// The length of an epoch in slots.
    pub fn epoch_length(&self) -> (r: u64)
        ensures
            r == self.epoch_length,
    {
        self.epoch_length
    }

    /// The epoch a slot falls in.
    pub fn get_epoch_from_slot(&self, slot: u64) -> (r: Result<u64, VaultError>)
        ensures
            r is Ok <==> self.epoch_length > 0,
            r matches Ok(e) ==> e == slot / self.epoch_length,
            r matches Err(e) ==> e == VaultError::DivisionByZero,
    {
        if self.epoch_length == 0 {
            Err(VaultError::DivisionByZero)
        } else {
            Ok(slot / self.epoch_length)
        }
    }

    /// Counts one more vault under the program.
    pub fn increment_num_vaults(&mut self) -> (r: Result<(), VaultError>)
        ensures
            r is Ok <==> old(self).num_vaults < u64::MAX,
            r is Ok ==> *final(self) == (Config { num_vaults: (old(self).num_vaults + 1) as u64, ..*old(self) }),
            r matches Err(e) ==> e == VaultError::VaultOverflow && *final(self) == *old(self),
    {
        if self.num_vaults == u64::MAX {
            return Err(VaultError::VaultOverflow);
        }
        self.num_vaults = self.num_vaults + 1;
        Ok(())
    }

    /// The program fee on an amount of VRT, rounded up.
    pub fn calculate_program_fee(program_fee_bps: u16, amount: u64) -> (r: Result<u64, VaultError>)
        ensures
            r is Ok <==> bps_fee(amount as int, program_fee_bps as int) <= u64::MAX,
            r matches Ok(f) ==> f == bps_fee(amount as int, program_fee_bps as int),
            r matches Err(e) ==> e == VaultError::VaultOverflow,
    {
        let product: u128 = mul_wide(amount, program_fee_bps as u64);
        let fee: u128 = ceil_div_u128(product, 10_000);
        if fee > u64::MAX as u128 {
            Err(VaultError::VaultOverflow)
        } else {
            Ok(fee as u64)
        }
    }

    /// The seeds of the config account.
    pub fn seeds() -> (r: Vec<Vec<u8>>)
        ensures
            r.deep_view() == config_seeds(),
    {
        let mut r: Vec<Vec<u8>> = Vec::new();
        let s = seed_from_str("config");
        r.push(s);
        assert(r.deep_view() =~= config_seeds());
        r
    }

    /// The program address of the config account, its bump seed and its seeds.
    pub fn find_program_address(program_id: &Address) -> (r: Option<(Address, u8, Vec<Vec<u8>>)>)
        ensures
            found_program_address(config_seeds(), program_id@) matches Some((k, b)) ==> (r matches Some(
                t,
            ) && t.0@ == k && t.1 == b && t.2.deep_view() == config_seeds()),
            found_program_address(config_seeds(), program_id@) is None ==> r is None,
    {
        let seeds = Self::seeds();
        match try_find_program_address(&seeds, program_id) {
            Some((key, bump)) => Some((key, bump, seeds)),
            None => None,
        }
    }

    /// Loads the vault [`Config`] account.
    pub fn load(program_id: &Address, account: &AccountView, expect_writable: bool) -> (r: Result<(), ProgramError>)
        ensures
            r == load_outcome(program_id@, *account, expect_writable, CONFIG_DISCRIMINATOR, found_key(config_seeds(), program_id@)),
    {
        let seeds = Self::seeds();
        load_program_account(program_id, account, expect_writable, CONFIG_DISCRIMINATOR, &seeds)
    }
}

} // verus!
