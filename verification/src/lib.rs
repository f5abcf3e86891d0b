pub mod account;
pub mod address;
pub mod burn_vault;
pub mod config;
pub mod discriminators;
pub mod delegation_state;
pub mod error;
pub mod harvest;
pub mod initialize;
pub mod instructions;
pub mod loader;
pub mod math;
pub mod operator_delegation;
pub mod result;
pub mod slot_toggle;
pub mod vault;
pub mod vault_avs_slasher_operator_ticket;
pub mod vault_delegation_list;
pub mod vault_laws;
pub mod vault_ncn_slasher_operator_ticket;
pub mod vault_ncn_slasher_ticket;
pub mod vault_ncn_ticket;
pub mod vault_operator_delegation;
pub mod vault_operator_list;
pub mod vault_operator_ticket;
pub mod vault_staker_withdrawal_ticket;
pub mod vault_update;
pub mod vault_update_state_tracker;
pub mod withdrawal;

use vstd::prelude::*;

verus! {

/// 100% expressed in basis points.
pub const MAX_BPS: u16 = 10_000;

/// The largest fee a vault may charge, in basis points.
pub const MAX_FEE_BPS: u16 = MAX_BPS;

} // verus!
