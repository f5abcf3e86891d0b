//! The vault is responsible for holding tokens and minting VRT tokens.
use vstd::prelude::*;
use vstd::string::*;
use crate::account::{AccountView, load_outcome};
use crate::address::{Address, address_at, created_program_address, found_program_address, seed_from_str, try_find_program_address, create_program_address, created_view, zero_key};
use crate::config::{Config, bps_fee};
use crate::delegation_state::DelegationState;
use crate::error::{ProgramError, VaultError, program_error_of};
use crate::math::{ceil_div_u128, mul_wide};
use crate::{MAX_BPS, MAX_FEE_BPS};

verus! {

/// The largest distance allowed between the effective and the expected reward fee (0.5%).
pub const MAX_REWARD_DELTA_BPS: u16 = 50;

/// The smallest slippage allowed on a withdrawal (0.5%).
pub const MIN_WITHDRAWAL_SLIPPAGE_BPS: u16 = 50;

/// The amount of supported tokens a vault is initialized with.
pub const DEFAULT_INITIALIZATION_TOKEN_AMOUNT: u64 = 10_000;

/// The first byte of a vault account.
pub const VAULT_DISCRIMINATOR: u8 = 2;

/// The length of a vault account's data: an 8-byte header and the vault's fields.
pub const VAULT_ACCOUNT_LEN: usize = 1111;

/// Where the vault's base address sits in its account data.
pub const VAULT_BASE_OFFSET: usize = 8;

/// Where the vault's bump seed sits in its account data.
pub const VAULT_BUMP_OFFSET: usize = 850;

/// How the VRT handed in for a withdrawal is split.
#[derive(Debug, Clone, Copy, PartialEq, Eq, Structural)]
pub struct BurnSummary {
    /// How much of the VRT shall be transferred to the vault fee account
    pub vault_fee_amount: u64,
    /// How much of the VRT shall be transferred to the program fee account
    pub program_fee_amount: u64,
    /// How much of the staker's VRT shall be burned
    pub burn_amount: u64,
    /// How much of the staker's tokens shall be returned
    pub out_amount: u64,
}

/// How the VRT minted for a deposit is split.
#[derive(Debug, Clone, Copy, PartialEq, Eq, Structural)]
pub struct MintSummary {
    pub vrt_to_depositor: u64,
    pub vrt_to_fee_wallet: u64,
}

#[derive(Debug, Clone, Copy, PartialEq, Eq)]
pub struct Vault {
    /// The base account of the VRT
    pub base: Address,
    /// Mint of the VRT token
    pub vrt_mint: Address,
    /// Mint of the token that is supported by the VRT
    pub supported_mint: Address,
    /// The total number of VRT in circulation
    pub vrt_supply: u64,
    /// The total number of tokens deposited
    pub tokens_deposited: u64,
    /// The maximum deposit capacity allowed in the mint_to instruction.
    pub deposit_capacity: u64,
    /// Rolled-up stake state for all operators in the set
    pub delegation_state: DelegationState,
    /// The amount of additional assets that need unstaking to fulfill VRT withdrawals
    pub additional_assets_need_unstaking: u64,
    /// The amount of VRT tokens in VaultStakerWithdrawalTickets enqueued for cooldown
    pub vrt_enqueued_for_cooldown_amount: u64,
    /// The amount of VRT tokens cooling down
    pub vrt_cooling_down_amount: u64,
    /// The amount of VRT tokens ready to claim
    pub vrt_ready_to_claim_amount: u64,
    /// Vault admin
    pub admin: Address,
    /// The delegation admin responsible for adding and removing delegations from operators.
    pub delegation_admin: Address,
    /// The operator admin responsible for adding and removing operators.
    pub operator_admin: Address,
    /// The node consensus network admin responsible for adding and removing support for NCNs.
    pub ncn_admin: Address,
    /// The admin responsible for adding and removing slashers.
    pub slasher_admin: Address,
    /// The admin responsible for setting the capacity
    pub capacity_admin: Address,
    /// The admin responsible for setting the fees
    pub fee_admin: Address,
    /// The delegate_admin responsible for delegating assets
    pub delegate_asset_admin: Address,
    /// Fee wallet account
    pub fee_wallet: Address,
    /// Optional mint signer
    pub mint_burn_admin: Address,
    /// Authority to update the vault's metadata
    pub metadata_admin: Address,
    /// The index of the vault in the vault list
    pub vault_index: u64,
    /// Number of VaultNcnTicket accounts tracked by this vault
    pub ncn_count: u64,
    /// Number of VaultOperatorDelegation accounts tracked by this vault
    pub operator_count: u64,
    /// Number of VaultNcnSlasherTicket accounts tracked by this vault
    pub slasher_count: u64,
    /// The slot of the last fee change
    pub last_fee_change_slot: u64,
    /// The slot of the last time the delegations were updated
    pub last_full_state_update_slot: u64,
    /// The deposit fee in basis points
    pub deposit_fee_bps: u16,
    /// The withdrawal fee in basis points
    pub withdrawal_fee_bps: u16,
    /// The next epoch's withdrawal fee in basis points
    pub next_withdrawal_fee_bps: u16,
    /// Fee for each epoch
    pub reward_fee_bps: u16,
    /// (Copied from Config) The program fee in basis points
    pub program_fee_bps: u16,
    /// The bump seed for the PDA
    pub bump: u8,
    /// Whether the vault is paused
    pub is_paused: bool,
}


/// The VRT minted for a deposit of `amount` supported tokens: one for one into an empty
/// vault, else the pro-rata share of the VRT supply (rounded down).
pub open spec fn vrt_for_deposit(tokens: int, supply: int, amount: int) -> int {
    if tokens == 0 {
        amount
    } else {
        amount * supply / tokens
    }
}

/// The reward fee, in supported tokens, on the rewards that a new balance brings.
pub open spec fn st_reward_fee(v: Vault, new_st_supply: int) -> int {
    let rewards = if new_st_supply > v.tokens_deposited { new_st_supply - v.tokens_deposited } else { 0 };
    bps_fee(rewards, v.reward_fee_bps as int)
}

/// The outcome of minting VRT for a deposit of `amount_in` tokens with a minimum output.
pub open spec fn mint_outcome(v: Vault, amount_in: int, min_amount_out: int) -> Result<MintSummary, VaultError> {
    let minted = vrt_for_deposit(v.tokens_deposited as int, v.vrt_supply as int, amount_in);
    let fee = bps_fee(minted, v.deposit_fee_bps as int);
    if amount_in == 0 {
        Err(VaultError::VaultMintZero)
    } else if v.tokens_deposited + amount_in > u64::MAX {
        Err(VaultError::VaultOverflow)
    } else if v.tokens_deposited + amount_in > v.deposit_capacity {
        Err(VaultError::VaultCapacityExceeded)
    } else if minted > u64::MAX || fee > u64::MAX {
        Err(VaultError::VaultOverflow)
    } else if fee > minted {
        Err(VaultError::VaultUnderflow)
    } else if minted - fee < min_amount_out {
        Err(VaultError::SlippageError)
    } else if v.vrt_supply + minted > u64::MAX {
        Err(VaultError::VaultOverflow)
    } else {
        Ok(MintSummary { vrt_to_depositor: (minted - fee) as u64, vrt_to_fee_wallet: fee as u64 })
    }
}

/// The split of `amount` VRT handed in for a withdrawal: the program fee comes first,
/// the vault fee takes what is left of it, the rest is burned, and the staker receives
/// the pro-rata share of the deposited tokens for the burned VRT (rounded down).
pub open spec fn burn_summary_outcome(v: Vault, amount: int) -> Result<BurnSummary, VaultError> {
    let program_fee = bps_fee(amount, v.program_fee_bps as int);
    let withdrawal_fee = bps_fee(amount, v.withdrawal_fee_bps as int);
    if program_fee > u64::MAX || withdrawal_fee > u64::MAX || program_fee + withdrawal_fee > u64::MAX {
        Err(VaultError::VaultOverflow)
    } else if program_fee > amount {
        Err(VaultError::VaultUnderflow)
    } else {
        let vault_fee = if program_fee + withdrawal_fee > amount { amount - program_fee } else { withdrawal_fee };
        let burn = amount - program_fee - vault_fee;
        if v.vrt_supply == 0 || burn * v.tokens_deposited / (v.vrt_supply as int) > u64::MAX {
            Err(VaultError::VaultOverflow)
        } else {
            Ok(BurnSummary {
                vault_fee_amount: vault_fee as u64,
                program_fee_amount: program_fee as u64,
                burn_amount: burn as u64,
                out_amount: (burn * v.tokens_deposited / (v.vrt_supply as int)) as u64,
            })
        }
    }
}

/// Whether `v` is a vault just created: every admin is the creator, no mint/burn admin,
/// no capacity limit, nothing deposited, delegated or withdrawing, the given fees.
pub open spec fn is_new_vault(
    v: Vault,
    vrt_mint: Address,
    supported_mint: Address,
    admin: Address,
    vault_index: u64,
    base: Address,
    deposit_fee_bps: u16,
    withdrawal_fee_bps: u16,
    reward_fee_bps: u16,
    program_fee_bps_from_config: u16,
    bump: u8,
    current_slot: u64,
) -> bool {
        &&& v.base == base && v.vrt_mint == vrt_mint && v.supported_mint == supported_mint
        &&& v.admin == admin && v.delegation_admin == admin && v.operator_admin == admin
        &&& v.ncn_admin == admin && v.slasher_admin == admin && v.capacity_admin == admin
        &&& v.fee_admin == admin && v.delegate_asset_admin == admin && v.fee_wallet == admin
        &&& v.metadata_admin == admin && v.mint_burn_admin@ == zero_key()
        &&& v.deposit_capacity == u64::MAX && v.vault_index == vault_index
        &&& v.vrt_supply == 0 && v.tokens_deposited == 0
        &&& v.vrt_enqueued_for_cooldown_amount == 0 && v.vrt_cooling_down_amount == 0
        &&& v.vrt_ready_to_claim_amount == 0
        &&& v.last_fee_change_slot == current_slot && v.last_full_state_update_slot == current_slot
        &&& v.deposit_fee_bps == deposit_fee_bps && v.withdrawal_fee_bps == withdrawal_fee_bps
        &&& v.next_withdrawal_fee_bps == withdrawal_fee_bps && v.reward_fee_bps == reward_fee_bps
        &&& v.program_fee_bps == program_fee_bps_from_config
        &&& v.ncn_count == 0 && v.operator_count == 0 && v.slasher_count == 0
        &&& v.bump == bump && v.delegation_state.holds(0, 0, 0)
        &&& v.additional_assets_need_unstaking == 0 && !v.is_paused
}

/// The outcome of delegating `amount` of the vault's tokens: refused for nothing, for an
/// empty vault, or for more than the tokens neither delegated nor set aside for
/// withdrawals.
pub open spec fn delegate_outcome(v: Vault, amount: int) -> Result<(), VaultError> {
    if amount == 0 {
        Err(VaultError::VaultDelegationZero)
    } else if v.tokens_deposited == 0 || v.vrt_supply == 0 {
        Err(VaultError::VaultUnderflow)
    } else {
        match requested_for_withdrawal(v) {
            Err(e) => Err(e),
            Ok(reserve) => if v.delegation_state.total() > u64::MAX {
                Err(VaultError::VaultSecurityOverflow)
            } else if v.tokens_deposited < v.delegation_state.total() + reserve {
                Err(VaultError::VaultUnderflow)
            } else if amount > v.tokens_deposited - v.delegation_state.total() - reserve {
                Err(VaultError::VaultInsufficientFunds)
            } else {
                Ok(())
            },
        }
    }
}

/// The outcome of a withdrawal of `amount` VRT: refused for nothing or more than the
/// supply, else the split of the amount, provided the tokens paid out stay within the
/// tokens that are not delegated.
pub open spec fn burn_outcome(v: Vault, amount: int) -> Result<BurnSummary, VaultError> {
    if amount == 0 {
        Err(VaultError::VaultBurnZero)
    } else if amount > v.vrt_supply {
        Err(VaultError::VaultInsufficientFunds)
    } else {
        match burn_summary_outcome(v, amount) {
            Err(e) => Err(e),
            Ok(s) => if v.delegation_state.total() > u64::MAX {
                Err(VaultError::VaultSecurityOverflow)
            } else if v.tokens_deposited < v.delegation_state.total()
                || s.out_amount > v.tokens_deposited - v.delegation_state.total() {
                Err(VaultError::VaultUnderflow)
            } else {
                Ok(s)
            },
        }
    }
}

/// The VRT held in withdrawal tickets: enqueued, cooling down and ready to claim.
pub open spec fn vrt_reserve(v: Vault) -> int {
    v.vrt_enqueued_for_cooldown_amount + v.vrt_cooling_down_amount + v.vrt_ready_to_claim_amount
}

/// The supported tokens to set aside for the VRT held in withdrawal tickets.
pub open spec fn requested_for_withdrawal(v: Vault) -> Result<u64, VaultError> {
    if v.vrt_supply == 0 {
        Ok(0)
    } else if vrt_reserve(v) > u64::MAX {
        Err(VaultError::VaultOverflow)
    } else {
        match burn_summary_outcome(v, vrt_reserve(v)) {
            Ok(s) => Ok(s.out_amount),
            Err(e) => Err(e),
        }
    }
}

/// The stake still cooling down after `epochs` epoch boundaries pass, of what was
/// enqueued and cooling down before them.
pub open spec fn withdrawing_after(enqueued: int, cooling: int, epochs: int) -> int {
    if epochs == 0 {
        enqueued + cooling
    } else if epochs == 1 {
        enqueued
    } else {
        0
    }
}

/// The outcome of computing how many more supported tokens must be unstaked to meet
/// the withdrawals, at the given slot.
pub open spec fn additional_unstake_outcome(v: Vault, slot: int, epoch_length: int) -> Result<u64, VaultError> {
    match requested_for_withdrawal(v) {
        Err(e) => Err(e),
        Ok(requested) => {
            if epoch_length == 0 {
                Err(VaultError::DivisionByZero)
            } else if slot / epoch_length < (v.last_full_state_update_slot as int) / epoch_length {
                Err(VaultError::ArithmeticUnderflow)
            } else {
                let epochs = slot / epoch_length - (v.last_full_state_update_slot as int) / epoch_length;
                let withdrawing = withdrawing_after(v.delegation_state.enqueued() as int, v.delegation_state.cooling() as int, epochs);
                let total = v.delegation_state.staked() + withdrawing;
                if total > u64::MAX {
                    Err(VaultError::VaultSecurityOverflow)
                } else if v.tokens_deposited < total {
                    Err(VaultError::VaultUnderflow)
                } else if v.tokens_deposited - total + withdrawing > u64::MAX {
                    Err(VaultError::VaultOverflow)
                } else {
                    let available = v.tokens_deposited - total + withdrawing;
                    Ok(if requested > available { (requested - available) as u64 } else { 0 })
                }
            }
        },
    }
}

/// The outcome of checking the reward fee's effective rate against the expected rate.
pub open spec fn reward_fee_rate_outcome(v: Vault, st_rewards: int, vrt_reward_fee: int, max_delta_bps: int) -> Result<(), VaultError> {
    if max_delta_bps > 10_000 {
        Err(VaultError::VaultFeeCapExceeded)
    } else if (st_rewards == 0 || v.reward_fee_bps == 0) && vrt_reward_fee == 0 {
        Ok(())
    } else if vrt_reward_fee == 0 {
        Err(VaultError::VaultRewardFeeIsZero)
    } else if v.vrt_supply == 0 || v.tokens_deposited * 10_000 / (v.vrt_supply as int) == 0 {
        Err(VaultError::VaultOverflow)
    } else {
        let ratio = v.tokens_deposited * 10_000 / (v.vrt_supply as int);
        let rewards_in_vrt = st_rewards * 10_000 / ratio;
        if rewards_in_vrt == 0 || vrt_reward_fee * 10_000 / rewards_in_vrt > u16::MAX {
            Err(VaultError::VaultOverflow)
        } else {
            let effective = vrt_reward_fee * 10_000 / rewards_in_vrt;
            let delta = if effective > v.reward_fee_bps { effective - v.reward_fee_bps } else { v.reward_fee_bps - effective };
            if delta > max_delta_bps {
                Err(VaultError::VaultRewardFeeDeltaTooLarge)
            } else {
                Ok(())
            }
        }
    }
}

/// The rate, in basis points, that a reward fee of `vrt_reward_fee` VRT makes of rewards of
/// `st_rewards` tokens, both taken at the vault's current exchange rate.
pub open spec fn effective_reward_fee_rate(v: Vault, st_rewards: int, vrt_reward_fee: int) -> int {
    let ratio = v.tokens_deposited * 10_000 / (v.vrt_supply as int);
    let rewards_in_vrt = st_rewards * 10_000 / ratio;
    vrt_reward_fee * 10_000 / rewards_in_vrt
}

/// Whether the exchange rate and the rewards in VRT are positive and the effective rate
/// of the reward fee lies within `max_delta_bps` of the vault's reward fee, on either side.
pub open spec fn reward_fee_rate_within(v: Vault, st_rewards: int, vrt_reward_fee: int, max_delta_bps: int) -> bool {
    let ratio = v.tokens_deposited * 10_000 / (v.vrt_supply as int);
    let eff = effective_reward_fee_rate(v, st_rewards, vrt_reward_fee);
    &&& v.vrt_supply > 0
    &&& ratio > 0
    &&& st_rewards * 10_000 / ratio > 0
    &&& v.reward_fee_bps - max_delta_bps <= eff <= v.reward_fee_bps + max_delta_bps
}

/// The seeds of the vault account with the given base.
pub open spec fn vault_seeds(base: Seq<u8>) -> Seq<Seq<u8>> {
    seq!["vault".spec_bytes(), base]
}

/// The outcome of a fee change from `current` to `new` basis points under a cap, a flat
/// bump and a rate of change.
pub open spec fn fee_change_outcome(current: int, new: int, cap: int, bump: int, rate_of_change: int) -> Result<(), VaultError> {
    if current > 10_000 || new > 10_000 || cap > 10_000 || bump > 10_000 || rate_of_change > 10_000 {
        Err(VaultError::VaultFeeCapExceeded)
    } else if new > cap {
        Err(VaultError::VaultFeeCapExceeded)
    } else if new - current > bump && (current == 0 || (new - current) * 10_000 / current > rate_of_change) {
        Err(VaultError::VaultFeeBumpTooLarge)
    } else {
        Ok(())
    }
}

impl Vault {
    #[verifier::rlimit(20)]
    pub fn new(
        vrt_mint: Address,
        supported_mint: Address,
        admin: Address,
        vault_index: u64,
        base: Address,
        deposit_fee_bps: u16,
        withdrawal_fee_bps: u16,
        reward_fee_bps: u16,
        program_fee_bps_from_config: u16,
        bump: u8,
        current_slot: u64,
    ) -> (r: Result<Self, VaultError>)
        ensures
            r is Ok <==> (deposit_fee_bps <= MAX_BPS && withdrawal_fee_bps <= MAX_BPS && reward_fee_bps <= MAX_BPS),
            r matches Err(e) ==> e == VaultError::VaultFeeCapExceeded,
            r matches Ok(v) ==> is_new_vault(v, vrt_mint, supported_mint, admin, vault_index, base, deposit_fee_bps,
                withdrawal_fee_bps, reward_fee_bps, program_fee_bps_from_config, bump, current_slot),
    {
        if deposit_fee_bps > MAX_BPS {
            return Err(VaultError::VaultFeeCapExceeded);
        }
        if withdrawal_fee_bps > MAX_BPS {
            return Err(VaultError::VaultFeeCapExceeded);
        }
        if reward_fee_bps > MAX_BPS {
            return Err(VaultError::VaultFeeCapExceeded);
        }
        Ok(Self {
            base,
            vrt_mint,
            supported_mint,
            admin,
            delegation_admin: admin,
            operator_admin: admin,
            ncn_admin: admin,
            slasher_admin: admin,
            capacity_admin: admin,
            fee_admin: admin,
            delegate_asset_admin: admin,
            fee_wallet: admin,
            metadata_admin: admin,
            mint_burn_admin: Address::default(),
            deposit_capacity: u64::MAX,
            vault_index,
            vrt_supply: 0,
            tokens_deposited: 0,
            vrt_enqueued_for_cooldown_amount: 0,
            vrt_cooling_down_amount: 0,
            vrt_ready_to_claim_amount: 0,
            last_fee_change_slot: current_slot,
            last_full_state_update_slot: current_slot,
            deposit_fee_bps,
            withdrawal_fee_bps,
            next_withdrawal_fee_bps: withdrawal_fee_bps,
            reward_fee_bps,
            program_fee_bps: program_fee_bps_from_config,
            ncn_count: 0,
            operator_count: 0,
            slasher_count: 0,
            bump,
            delegation_state: DelegationState::default(),
            additional_assets_need_unstaking: 0,
            is_paused: false,
        })
    }

    pub fn ncn_count(&self) -> (r: u64)
        ensures
            r == self.ncn_count,
    {
        self.ncn_count
    }

    pub fn last_fee_change_slot(&self) -> (r: u64)
        ensures
            r == self.last_fee_change_slot,
    {
        self.last_fee_change_slot
    }

    pub fn deposit_capacity(&self) -> (r: u64)
        ensures
            r == self.deposit_capacity,
    {
        self.deposit_capacity
    }

    pub fn vault_index(&self) -> (r: u64)
        ensures
            r == self.vault_index,
    {
        self.vault_index
    }

    pub fn last_full_state_update_slot(&self) -> (r: u64)
        ensures
            r == self.last_full_state_update_slot,
    {
        self.last_full_state_update_slot
    }

    pub fn vrt_supply(&self) -> (r: u64)
        ensures
            r == self.vrt_supply,
    {
        self.vrt_supply
    }

    pub fn slasher_count(&self) -> (r: u64)
        ensures
            r == self.slasher_count,
    {
        self.slasher_count
    }

    pub fn tokens_deposited(&self) -> (r: u64)
        ensures
            r == self.tokens_deposited,
    {
        self.tokens_deposited
    }

    pub fn vrt_enqueued_for_cooldown_amount(&self) -> (r: u64)
        ensures
            r == self.vrt_enqueued_for_cooldown_amount,
    {
        self.vrt_enqueued_for_cooldown_amount
    }

    pub fn vrt_cooling_down_amount(&self) -> (r: u64)
        ensures
            r == self.vrt_cooling_down_amount,
    {
        self.vrt_cooling_down_amount
    }

    pub fn vrt_ready_to_claim_amount(&self) -> (r: u64)
        ensures
            r == self.vrt_ready_to_claim_amount,
    {
        self.vrt_ready_to_claim_amount
    }

    pub fn operator_count(&self) -> (r: u64)
        ensures
            r == self.operator_count,
    {
        self.operator_count
    }

    pub fn additional_assets_need_unstaking(&self) -> (r: u64)
        ensures
            r == self.additional_assets_need_unstaking,
    {
        self.additional_assets_need_unstaking
    }

    pub fn deposit_fee_bps(&self) -> (r: u16)
        ensures
            r == self.deposit_fee_bps,
    {
        self.deposit_fee_bps
    }

    pub fn withdrawal_fee_bps(&self) -> (r: u16)
        ensures
            r == self.withdrawal_fee_bps,
    {
        self.withdrawal_fee_bps
    }

    pub fn next_withdrawal_fee_bps(&self) -> (r: u16)
        ensures
            r == self.next_withdrawal_fee_bps,
    {
        self.next_withdrawal_fee_bps
    }

    pub fn reward_fee_bps(&self) -> (r: u16)
        ensures
            r == self.reward_fee_bps,
    {
        self.reward_fee_bps
    }

    pub fn program_fee_bps(&self) -> (r: u16)
        ensures
            r == self.program_fee_bps,
    {
        self.program_fee_bps
    }

    pub fn is_paused(&self) -> (r: bool)
        ensures
            r == self.is_paused,
    {
        self.is_paused
    }

    pub fn set_last_fee_change_slot(&mut self, slot: u64)
        ensures
            *final(self) == (Vault { last_fee_change_slot: slot, ..*old(self) }),
    {
        self.last_fee_change_slot = slot;
    }

    pub fn set_program_fee_bps(&mut self, program_fee_bps: u16)
        ensures
            *final(self) == (Vault { program_fee_bps: program_fee_bps, ..*old(self) }),
    {
        self.program_fee_bps = program_fee_bps;
    }

    pub fn set_capacity(&mut self, capacity: u64)
        ensures
            *final(self) == (Vault { deposit_capacity: capacity, ..*old(self) }),
    {
        self.deposit_capacity = capacity;
    }

    pub fn set_vrt_cooling_down_amount(&mut self, amount: u64)
        ensures
            *final(self) == (Vault { vrt_cooling_down_amount: amount, ..*old(self) }),
    {
        self.vrt_cooling_down_amount = amount;
    }

    pub fn set_last_full_state_update_slot(&mut self, slot: u64)
        ensures
            *final(self) == (Vault { last_full_state_update_slot: slot, ..*old(self) }),
    {
        self.last_full_state_update_slot = slot;
    }

    pub fn set_vrt_enqueued_for_cooldown_amount(&mut self, amount: u64)
        ensures
            *final(self) == (Vault { vrt_enqueued_for_cooldown_amount: amount, ..*old(self) }),
    {
        self.vrt_enqueued_for_cooldown_amount = amount;
    }

    pub fn set_tokens_deposited(&mut self, tokens_deposited: u64)
        ensures
            *final(self) == (Vault { tokens_deposited: tokens_deposited, ..*old(self) }),
    {
        self.tokens_deposited = tokens_deposited;
    }

    pub fn set_vrt_supply(&mut self, vrt_supply: u64)
        ensures
            *final(self) == (Vault { vrt_supply: vrt_supply, ..*old(self) }),
    {
        self.vrt_supply = vrt_supply;
    }

    pub fn set_additional_assets_need_unstaking(&mut self, additional_assets_need_unstaking: u64)
        ensures
            *final(self) == (Vault { additional_assets_need_unstaking: additional_assets_need_unstaking, ..*old(self) }),
    {
        self.additional_assets_need_unstaking = additional_assets_need_unstaking;
    }

    pub fn set_withdrawal_fee_bps(&mut self, withdrawal_fee_bps: u16)
        ensures
            *final(self) == (Vault { withdrawal_fee_bps: withdrawal_fee_bps, ..*old(self) }),
    {
        self.withdrawal_fee_bps = withdrawal_fee_bps;
    }

    pub fn set_is_paused(&mut self, is_paused: bool)
        ensures
            *final(self) == (Vault { is_paused: is_paused, ..*old(self) }),
    {
        self.is_paused = is_paused;
    }

    pub fn increment_tokens_deposited(&mut self, amount: u64) -> (r: Result<(), VaultError>)
        ensures
            r is Ok <==> old(self).tokens_deposited + amount <= u64::MAX,
            r is Ok ==> *final(self) == (Vault { tokens_deposited: (old(self).tokens_deposited + amount) as u64, ..*old(self) }),
            r matches Err(e) ==> e == VaultError::VaultOverflow && *final(self) == *old(self),
    {
        match self.tokens_deposited.checked_add(amount) {
            Some(v) => {
                self.tokens_deposited = v;
                Ok(())
            },
            None => Err(VaultError::VaultOverflow),
        }
    }

    pub fn decrement_tokens_deposited(&mut self, amount: u64) -> (r: Result<(), VaultError>)
        ensures
            r is Ok <==> old(self).tokens_deposited >= amount,
            r is Ok ==> *final(self) == (Vault { tokens_deposited: (old(self).tokens_deposited - amount) as u64, ..*old(self) }),
            r matches Err(e) ==> e == VaultError::VaultUnderflow && *final(self) == *old(self),
    {
        match self.tokens_deposited.checked_sub(amount) {
            Some(v) => {
                self.tokens_deposited = v;
                Ok(())
            },
            None => Err(VaultError::VaultUnderflow),
        }
    }

    pub fn increment_vrt_supply(&mut self, amount: u64) -> (r: Result<(), VaultError>)
        ensures
            r is Ok <==> old(self).vrt_supply + amount <= u64::MAX,
            r is Ok ==> *final(self) == (Vault { vrt_supply: (old(self).vrt_supply + amount) as u64, ..*old(self) }),
            r matches Err(e) ==> e == VaultError::VaultOverflow && *final(self) == *old(self),
    {
        match self.vrt_supply.checked_add(amount) {
            Some(v) => {
                self.vrt_supply = v;
                Ok(())
            },
            None => Err(VaultError::VaultOverflow),
        }
    }

    pub fn decrement_vrt_supply(&mut self, amount: u64) -> (r: Result<(), VaultError>)
        ensures
            r is Ok <==> old(self).vrt_supply >= amount,
            r is Ok ==> *final(self) == (Vault { vrt_supply: (old(self).vrt_supply - amount) as u64, ..*old(self) }),
            r matches Err(e) ==> e == VaultError::VaultUnderflow && *final(self) == *old(self),
    {
        match self.vrt_supply.checked_sub(amount) {
            Some(v) => {
                self.vrt_supply = v;
                Ok(())
            },
            None => Err(VaultError::VaultUnderflow),
        }
    }

    pub fn decrement_vrt_ready_to_claim_amount(&mut self, amount: u64) -> (r: Result<(), VaultError>)
        ensures
            r is Ok <==> old(self).vrt_ready_to_claim_amount >= amount,
            r is Ok ==> *final(self) == (Vault { vrt_ready_to_claim_amount: (old(self).vrt_ready_to_claim_amount - amount) as u64, ..*old(self) }),
            r matches Err(e) ==> e == VaultError::VaultUnderflow && *final(self) == *old(self),
    {
        match self.vrt_ready_to_claim_amount.checked_sub(amount) {
            Some(v) => {
                self.vrt_ready_to_claim_amount = v;
                Ok(())
            },
            None => Err(VaultError::VaultUnderflow),
        }
    }

    pub fn increment_vrt_ready_to_claim_amount(&mut self, amount: u64) -> (r: Result<(), VaultError>)
        ensures
            r is Ok <==> old(self).vrt_ready_to_claim_amount + amount <= u64::MAX,
            r is Ok ==> *final(self) == (Vault { vrt_ready_to_claim_amount: (old(self).vrt_ready_to_claim_amount + amount) as u64, ..*old(self) }),
            r matches Err(e) ==> e == VaultError::VaultOverflow && *final(self) == *old(self),
    {
        match self.vrt_ready_to_claim_amount.checked_add(amount) {
            Some(v) => {
                self.vrt_ready_to_claim_amount = v;
                Ok(())
            },
            None => Err(VaultError::VaultOverflow),
        }
    }

    pub fn increment_vrt_enqueued_for_cooldown_amount(&mut self, amount: u64) -> (r: Result<(), VaultError>)
        ensures
            r is Ok <==> old(self).vrt_enqueued_for_cooldown_amount + amount <= u64::MAX,
            r is Ok ==> *final(self) == (Vault { vrt_enqueued_for_cooldown_amount: (old(self).vrt_enqueued_for_cooldown_amount + amount) as u64, ..*old(self) }),
            r matches Err(e) ==> e == VaultError::VaultOverflow && *final(self) == *old(self),
    {
        match self.vrt_enqueued_for_cooldown_amount.checked_add(amount) {
            Some(v) => {
                self.vrt_enqueued_for_cooldown_amount = v;
                Ok(())
            },
            None => Err(VaultError::VaultOverflow),
        }
    }

    pub fn decrement_additional_assets_need_unstaking(&mut self, amount: u64) -> (r: Result<(), VaultError>)
        ensures
            r is Ok <==> old(self).additional_assets_need_unstaking >= amount,
            r is Ok ==> *final(self) == (Vault { additional_assets_need_unstaking: (old(self).additional_assets_need_unstaking - amount) as u64, ..*old(self) }),
            r matches Err(e) ==> e == VaultError::VaultUnderflow && *final(self) == *old(self),
    {
        match self.additional_assets_need_unstaking.checked_sub(amount) {
            Some(v) => {
                self.additional_assets_need_unstaking = v;
                Ok(())
            },
            None => Err(VaultError::VaultUnderflow),
        }
    }

    pub fn increment_slasher_count(&mut self) -> (r: Result<(), VaultError>)
        ensures
            r is Ok <==> old(self).slasher_count + 1 <= u64::MAX,
            r is Ok ==> *final(self) == (Vault { slasher_count: (old(self).slasher_count + 1) as u64, ..*old(self) }),
            r matches Err(e) ==> e == VaultError::SlasherOverflow && *final(self) == *old(self),
    {
        match self.slasher_count.checked_add(1) {
            Some(v) => {
                self.slasher_count = v;
                Ok(())
            },
            None => Err(VaultError::SlasherOverflow),
        }
    }

    pub fn increment_ncn_count(&mut self) -> (r: Result<(), VaultError>)
        ensures
            r is Ok <==> old(self).ncn_count + 1 <= u64::MAX,
            r is Ok ==> *final(self) == (Vault { ncn_count: (old(self).ncn_count + 1) as u64, ..*old(self) }),
            r matches Err(e) ==> e == VaultError::NcnOverflow && *final(self) == *old(self),
    {
        match self.ncn_count.checked_add(1) {
            Some(v) => {
                self.ncn_count = v;
                Ok(())
            },
            None => Err(VaultError::NcnOverflow),
        }
    }

    pub fn increment_operator_count(&mut self) -> (r: Result<(), VaultError>)
        ensures
            r is Ok <==> old(self).operator_count + 1 <= u64::MAX,
            r is Ok ==> *final(self) == (Vault { operator_count: (old(self).operator_count + 1) as u64, ..*old(self) }),
            r matches Err(e) ==> e == VaultError::OperatorOverflow && *final(self) == *old(self),
    {
        match self.operator_count.checked_add(1) {
            Some(v) => {
                self.operator_count = v;
                Ok(())
            },
            None => Err(VaultError::OperatorOverflow),
        }
    }

    /// Sets the deposit fee, at initialization only; the base account must sign.
    pub fn initialize_vault_override_deposit_fee_bps(&mut self, deposit_fee_bps: u16, base: &AccountView) -> (r: Result<(), ProgramError>)
        ensures
            r is Ok <==> (base.is_signer && deposit_fee_bps <= MAX_FEE_BPS),
            r is Ok ==> *final(self) == (Vault { deposit_fee_bps, ..*old(self) }),
            r matches Err(e) ==> *final(self) == *old(self) && (if !base.is_signer {
                e == ProgramError::MissingRequiredSignature
            } else {
                e == ProgramError::InvalidArgument
            }),
    {
        if !base.is_signer {
            return Err(ProgramError::MissingRequiredSignature);
        }
        if deposit_fee_bps > MAX_FEE_BPS {
            return Err(ProgramError::InvalidArgument);
        }
        self.deposit_fee_bps = deposit_fee_bps;
        Ok(())
    }

    /// Checks whether the vault is currently paused.
    pub fn check_is_paused(&self) -> (r: Result<(), VaultError>)
        ensures
            r is Ok <==> !self.is_paused,
            r matches Err(e) ==> e == VaultError::VaultIsPaused,
    {
        if self.is_paused {
            return Err(VaultError::VaultIsPaused);
        }
        Ok(())
    }

    /// Checks that the VRT mint is the vault's.
    pub fn check_vrt_mint(&self, vrt_mint: &Address) -> (r: Result<(), ProgramError>)
        ensures
            r is Ok <==> self.vrt_mint@ == vrt_mint@,
            r matches Err(e) ==> e == ProgramError::InvalidAccountData,
    {
        if !self.vrt_mint.equals(vrt_mint) {
            return Err(ProgramError::InvalidAccountData);
        }
        Ok(())
    }

    /// Checks that the admin is the vault's admin.
    pub fn check_admin(&self, admin: &Address) -> (r: Result<(), ProgramError>)
        ensures
            r is Ok <==> self.admin@ == admin@,
            r matches Err(e) ==> e == program_error_of(VaultError::VaultAdminInvalid),
    {
        if !self.admin.equals(admin) {
            return Err(ProgramError::from(VaultError::VaultAdminInvalid));
        }
        Ok(())
    }

    pub fn check_delegation_admin(&self, delegation_admin: &Address) -> (r: Result<(), VaultError>)
        ensures
            r is Ok <==> self.delegation_admin@ == delegation_admin@,
            r matches Err(e) ==> e == VaultError::VaultDelegationAdminInvalid,
    {
        if !self.delegation_admin.equals(delegation_admin) {
            return Err(VaultError::VaultDelegationAdminInvalid);
        }
        Ok(())
    }

    pub fn check_operator_admin(&self, operator_admin: &Address) -> (r: Result<(), VaultError>)
        ensures
            r is Ok <==> self.operator_admin@ == operator_admin@,
            r matches Err(e) ==> e == VaultError::VaultOperatorAdminInvalid,
    {
        if !self.operator_admin.equals(operator_admin) {
            return Err(VaultError::VaultOperatorAdminInvalid);
        }
        Ok(())
    }

    pub fn check_ncn_admin(&self, ncn_admin: &Address) -> (r: Result<(), VaultError>)
        ensures
            r is Ok <==> self.ncn_admin@ == ncn_admin@,
            r matches Err(e) ==> e == VaultError::VaultNcnAdminInvalid,
    {
        if !self.ncn_admin.equals(ncn_admin) {
            return Err(VaultError::VaultNcnAdminInvalid);
        }
        Ok(())
    }

    pub fn check_slasher_admin(&self, slasher_admin: &Address) -> (r: Result<(), VaultError>)
        ensures
            r is Ok <==> self.slasher_admin@ == slasher_admin@,
            r matches Err(e) ==> e == VaultError::VaultSlasherAdminInvalid,
    {
        if !self.slasher_admin.equals(slasher_admin) {
            return Err(VaultError::VaultSlasherAdminInvalid);
        }
        Ok(())
    }

    pub fn check_capacity_admin(&self, capacity_admin: &Address) -> (r: Result<(), VaultError>)
        ensures
            r is Ok <==> self.capacity_admin@ == capacity_admin@,
            r matches Err(e) ==> e == VaultError::VaultCapacityAdminInvalid,
    {
        if !self.capacity_admin.equals(capacity_admin) {
            return Err(VaultError::VaultCapacityAdminInvalid);
        }
        Ok(())
    }

    pub fn check_fee_admin(&self, fee_admin: &Address) -> (r: Result<(), VaultError>)
        ensures
            r is Ok <==> self.fee_admin@ == fee_admin@,
            r matches Err(e) ==> e == VaultError::VaultFeeAdminInvalid,
    {
        if !self.fee_admin.equals(fee_admin) {
            return Err(VaultError::VaultFeeAdminInvalid);
        }
        Ok(())
    }

    pub fn check_delegate_asset_admin(&self, delegate_asset_admin: &Address) -> (r: Result<(), VaultError>)
        ensures
            r is Ok <==> self.delegate_asset_admin@ == delegate_asset_admin@,
            r matches Err(e) ==> e == VaultError::VaultDelegateAssetAdminInvalid,
    {
        if !self.delegate_asset_admin.equals(delegate_asset_admin) {
            return Err(VaultError::VaultDelegateAssetAdminInvalid);
        }
        Ok(())
    }

    /// Replaces every secondary admin that equals the old admin by the new admin.
    pub fn update_secondary_admin(&mut self, old_admin: &Address, new_admin: &Address)
        ensures
            final(self).delegation_admin@ == (if old(self).delegation_admin@ == old_admin@ { new_admin@ } else { old(self).delegation_admin@ }),
            final(self).operator_admin@ == (if old(self).operator_admin@ == old_admin@ { new_admin@ } else { old(self).operator_admin@ }),
            final(self).ncn_admin@ == (if old(self).ncn_admin@ == old_admin@ { new_admin@ } else { old(self).ncn_admin@ }),
            final(self).slasher_admin@ == (if old(self).slasher_admin@ == old_admin@ { new_admin@ } else { old(self).slasher_admin@ }),
            final(self).capacity_admin@ == (if old(self).capacity_admin@ == old_admin@ { new_admin@ } else { old(self).capacity_admin@ }),
            final(self).fee_wallet@ == (if old(self).fee_wallet@ == old_admin@ { new_admin@ } else { old(self).fee_wallet@ }),
            final(self).mint_burn_admin@ == (if old(self).mint_burn_admin@ == old_admin@ { new_admin@ } else { old(self).mint_burn_admin@ }),
            final(self).delegate_asset_admin@ == (if old(self).delegate_asset_admin@ == old_admin@ { new_admin@ } else { old(self).delegate_asset_admin@ }),
            final(self).fee_admin@ == (if old(self).fee_admin@ == old_admin@ { new_admin@ } else { old(self).fee_admin@ }),
            final(self).metadata_admin@ == (if old(self).metadata_admin@ == old_admin@ { new_admin@ } else { old(self).metadata_admin@ }),
            *final(self) == (Vault { delegation_admin: final(self).delegation_admin, operator_admin: final(self).operator_admin, ncn_admin: final(self).ncn_admin, slasher_admin: final(self).slasher_admin, capacity_admin: final(self).capacity_admin, fee_wallet: final(self).fee_wallet, mint_burn_admin: final(self).mint_burn_admin, delegate_asset_admin: final(self).delegate_asset_admin, fee_admin: final(self).fee_admin, metadata_admin: final(self).metadata_admin, ..*old(self) }),
    {
        if self.delegation_admin.equals(old_admin) {
            self.delegation_admin = *new_admin;
        }
        if self.operator_admin.equals(old_admin) {
            self.operator_admin = *new_admin;
        }
        if self.ncn_admin.equals(old_admin) {
            self.ncn_admin = *new_admin;
        }
        if self.slasher_admin.equals(old_admin) {
            self.slasher_admin = *new_admin;
        }
        if self.capacity_admin.equals(old_admin) {
            self.capacity_admin = *new_admin;
        }
        if self.fee_wallet.equals(old_admin) {
            self.fee_wallet = *new_admin;
        }
        if self.mint_burn_admin.equals(old_admin) {
            self.mint_burn_admin = *new_admin;
        }
        if self.delegate_asset_admin.equals(old_admin) {
            self.delegate_asset_admin = *new_admin;
        }
        if self.fee_admin.equals(old_admin) {
            self.fee_admin = *new_admin;
        }
        if self.metadata_admin.equals(old_admin) {
            self.metadata_admin = *new_admin;
        }
    }

    /// Whether an epoch boundary has passed since the last full state update.
    pub fn is_update_needed(&self, slot: u64, epoch_length: u64) -> (r: Result<bool, ProgramError>)
        ensures
            r is Ok <==> epoch_length > 0,
            r matches Ok(b) ==> b == (self.last_full_state_update_slot / epoch_length < slot / epoch_length),
            r matches Err(e) ==> e == program_error_of(VaultError::DivisionByZero),
    {
        if epoch_length == 0 {
            return Err(ProgramError::from(VaultError::DivisionByZero));
        }
        let last_updated_epoch = self.last_full_state_update_slot / epoch_length;
        let current_epoch = slot / epoch_length;
        Ok(last_updated_epoch < current_epoch)
    }

    /// Checks that the vault does not need an update.
    pub fn check_update_state_ok(&self, slot: u64, epoch_length: u64) -> (r: Result<(), ProgramError>)
        ensures
            r is Ok <==> (epoch_length > 0 && self.last_full_state_update_slot / epoch_length >= slot / epoch_length),
            r matches Err(e) ==> (if epoch_length == 0 {
                e == program_error_of(VaultError::DivisionByZero)
            } else {
                e == program_error_of(VaultError::VaultUpdateNeeded)
            }),
    {
        let needed = match self.is_update_needed(slot, epoch_length) {
            Ok(b) => b,
            Err(e) => {
                return Err(e);
            },
        };
        if needed {
            return Err(ProgramError::from(VaultError::VaultUpdateNeeded));
        }
        Ok(())
    }

    /// Checks the mint/burn admin: when the vault has one, it must be handed in and sign.
    pub fn check_mint_burn_admin(&self, mint_burn_admin: Option<&AccountView>) -> (r: Result<(), VaultError>)
        ensures
            r is Ok <==> (self.mint_burn_admin@ == zero_key() || (mint_burn_admin matches Some(a) && a.is_signer
                && a.key@ == self.mint_burn_admin@)),
            r matches Err(e) ==> e == VaultError::VaultMintBurnAdminInvalid,
    {
        if !self.mint_burn_admin.is_zero() {
            match mint_burn_admin {
                Some(burn_signer) => {
                    if !burn_signer.is_signer {
                        return Err(VaultError::VaultMintBurnAdminInvalid);
                    }
                    if !burn_signer.key.equals(&self.mint_burn_admin) {
                        return Err(VaultError::VaultMintBurnAdminInvalid);
                    }
                },
                None => {
                    return Err(VaultError::VaultMintBurnAdminInvalid);
                },
            }
        }
        Ok(())
    }

    /// Fees can be changed at most once per epoch, and a full epoch must pass before a fee
    /// can be changed again.
    pub fn check_can_modify_fees(&self, slot: u64, epoch_length: u64) -> (r: Result<(), VaultError>)
        ensures
            r is Ok <==> (epoch_length > 0 && slot / epoch_length > self.last_fee_change_slot / epoch_length + 1),
            r matches Err(e) ==> (if epoch_length == 0 {
                e == VaultError::DivisionByZero
            } else if self.last_fee_change_slot / epoch_length == u64::MAX {
                e == VaultError::ArithmeticOverflow
            } else {
                e == VaultError::VaultFeeChangeTooSoon
            }),
    {
        if epoch_length == 0 {
            return Err(VaultError::DivisionByZero);
        }
        let current_epoch = slot / epoch_length;
        let last_fee_change_epoch = self.last_fee_change_slot / epoch_length;
        if last_fee_change_epoch == u64::MAX {
            return Err(VaultError::ArithmeticOverflow);
        }
        if current_epoch <= last_fee_change_epoch + 1 {
            return Err(VaultError::VaultFeeChangeTooSoon);
        }
        Ok(())
    }

    /// Checks that a fee may move from `current_fee_bps` to `new_fee_bps`: every value is
    /// at most 100%, the new fee is within the cap, and an increase beyond the flat bump is
    /// at most the allowed rate of change relative to the current fee.
    pub fn check_fee_change_ok(
        current_fee_bps: u16,
        new_fee_bps: u16,
        fee_cap_bps: u16,
        fee_bump_bps: u16,
        fee_rate_of_change_bps: u16,
    ) -> (r: Result<(), VaultError>)
        ensures
            r == fee_change_outcome(current_fee_bps as int, new_fee_bps as int, fee_cap_bps as int, fee_bump_bps as int, fee_rate_of_change_bps as int),
    {
        if current_fee_bps > MAX_BPS || new_fee_bps > MAX_BPS || fee_cap_bps > MAX_BPS || fee_bump_bps > MAX_BPS
            || fee_rate_of_change_bps > MAX_BPS {
            return Err(VaultError::VaultFeeCapExceeded);
        }
        let fee_delta: u16 = if new_fee_bps > current_fee_bps {
            new_fee_bps - current_fee_bps
        } else {
            0
        };
        if new_fee_bps > fee_cap_bps {
            return Err(VaultError::VaultFeeCapExceeded);
        }
        if fee_delta > fee_bump_bps {
            // a rise from zero counts as an unbounded rate of change
            let increase_bps: u64 = if current_fee_bps == 0 {
                u64::MAX
            } else {
                proof {
                    assert(fee_delta as int * 10_000 <= 10_000 * 10_000) by (nonlinear_arith)
                        requires
                            fee_delta <= 10_000,
                    ;
                }
                (fee_delta as u64 * 10_000) / current_fee_bps as u64
            };
            if increase_bps > fee_rate_of_change_bps as u64 {
                return Err(VaultError::VaultFeeBumpTooLarge);
            }
        }
        Ok(())
    }

    pub fn set_next_withdrawal_fee_bps(
        &mut self,
        withdrawal_fee_bps: u16,
        deposit_withdrawal_fee_cap_bps: u16,
        fee_bump_bps: u16,
        fee_rate_of_change_bps: u16,
    ) -> (r: Result<(), VaultError>)
        ensures
            r == (if withdrawal_fee_bps > MAX_FEE_BPS || withdrawal_fee_bps > deposit_withdrawal_fee_cap_bps {
                Err(VaultError::VaultFeeCapExceeded)
            } else {
                fee_change_outcome(old(self).withdrawal_fee_bps as int, withdrawal_fee_bps as int,
                    deposit_withdrawal_fee_cap_bps as int, fee_bump_bps as int, fee_rate_of_change_bps as int)
            }),
            r is Ok ==> *final(self) == (Vault { next_withdrawal_fee_bps: withdrawal_fee_bps, ..*old(self) }),
            r is Err ==> *final(self) == *old(self),
    {
        if withdrawal_fee_bps > MAX_FEE_BPS {
            return Err(VaultError::VaultFeeCapExceeded);
        } else if withdrawal_fee_bps > deposit_withdrawal_fee_cap_bps {
            return Err(VaultError::VaultFeeCapExceeded);
        }
        match Self::check_fee_change_ok(
            self.withdrawal_fee_bps,
            withdrawal_fee_bps,
            deposit_withdrawal_fee_cap_bps,
            fee_bump_bps,
            fee_rate_of_change_bps,
        ) {
            Ok(()) => {},
            Err(e) => {
                return Err(e);
            },
        }
        self.next_withdrawal_fee_bps = withdrawal_fee_bps;
        Ok(())
    }

    pub fn set_deposit_fee_bps(
        &mut self,
        deposit_fee_bps: u16,
        deposit_withdrawal_fee_cap_bps: u16,
        fee_bump_bps: u16,
        fee_rate_of_change_bps: u16,
    ) -> (r: Result<(), VaultError>)
        ensures
            r == (if deposit_fee_bps > MAX_FEE_BPS || deposit_fee_bps > deposit_withdrawal_fee_cap_bps {
                Err(VaultError::VaultFeeCapExceeded)
            } else {
                fee_change_outcome(old(self).deposit_fee_bps as int, deposit_fee_bps as int,
                    deposit_withdrawal_fee_cap_bps as int, fee_bump_bps as int, fee_rate_of_change_bps as int)
            }),
            r is Ok ==> *final(self) == (Vault { deposit_fee_bps, ..*old(self) }),
            r is Err ==> *final(self) == *old(self),
    {
        if deposit_fee_bps > MAX_FEE_BPS {
            return Err(VaultError::VaultFeeCapExceeded);
        } else if deposit_fee_bps > deposit_withdrawal_fee_cap_bps {
            return Err(VaultError::VaultFeeCapExceeded);
        }
        match Self::check_fee_change_ok(
            self.deposit_fee_bps,
            deposit_fee_bps,
            deposit_withdrawal_fee_cap_bps,
            fee_bump_bps,
            fee_rate_of_change_bps,
        ) {
            Ok(()) => {},
            Err(e) => {
                return Err(e);
            },
        }
        self.deposit_fee_bps = deposit_fee_bps;
        Ok(())
    }

    pub fn set_reward_fee_bps(&mut self, reward_fee_bps: u16) -> (r: Result<(), VaultError>)
        ensures
            r is Ok <==> reward_fee_bps <= MAX_FEE_BPS,
            r is Ok ==> *final(self) == (Vault { reward_fee_bps, ..*old(self) }),
            r matches Err(e) ==> e == VaultError::VaultFeeCapExceeded && *final(self) == *old(self),
    {
        if reward_fee_bps > MAX_FEE_BPS {
            return Err(VaultError::VaultFeeCapExceeded);
        }
        self.reward_fee_bps = reward_fee_bps;
        Ok(())
    }

    /// The reward fee, in supported tokens, on the rewards a new balance brings. The VRT
    /// minted for it is computed when the vault balance is updated.
    pub fn calculate_st_reward_fee(&self, new_st_supply: u64) -> (r: Result<u64, VaultError>)
        ensures
            r is Ok <==> st_reward_fee(*self, new_st_supply as int) <= u64::MAX,
            r matches Ok(f) ==> f == st_reward_fee(*self, new_st_supply as int),
            r matches Err(e) ==> e == VaultError::VaultOverflow,
    {
        let st_rewards: u64 = if new_st_supply > self.tokens_deposited {
            new_st_supply - self.tokens_deposited
        } else {
            0
        };
        if st_rewards == 0 {
            return Ok(0);
        }
        Config::calculate_program_fee(self.reward_fee_bps, st_rewards)
    }

    /// Checks that the reward fee's actual rate is within `max_delta_bps` of the expected rate.
    #[verifier::rlimit(40)]
    pub fn check_reward_fee_effective_rate(&self, st_rewards: u64, vrt_reward_fee: u64, max_delta_bps: u16) -> (r: Result<(), VaultError>)
        ensures
            r == reward_fee_rate_outcome(*self, st_rewards as int, vrt_reward_fee as int, max_delta_bps as int),
            r is Ok && vrt_reward_fee > 0 ==> reward_fee_rate_within(*self, st_rewards as int, vrt_reward_fee as int, max_delta_bps as int),
    {
        if max_delta_bps > MAX_FEE_BPS {
            return Err(VaultError::VaultFeeCapExceeded);
        }
        if (st_rewards == 0 || self.reward_fee_bps == 0) && vrt_reward_fee == 0 {
            return Ok(());
        }
        if vrt_reward_fee == 0 {
            return Err(VaultError::VaultRewardFeeIsZero);
        }
        if self.vrt_supply == 0 {
            return Err(VaultError::VaultOverflow);
        }
        let st_vrt_ratio: u128 = mul_wide(self.tokens_deposited, 10_000) / (self.vrt_supply as u128);
        if st_vrt_ratio == 0 {
            return Err(VaultError::VaultOverflow);
        }
        let rewards_in_vrt: u128 = mul_wide(st_rewards, 10_000) / st_vrt_ratio;
        if rewards_in_vrt == 0 {
            return Err(VaultError::VaultOverflow);
        }
        let effective: u128 = mul_wide(vrt_reward_fee, 10_000) / rewards_in_vrt;
        if effective > u16::MAX as u128 {
            return Err(VaultError::VaultOverflow);
        }
        let effective_rate_bps: u16 = effective as u16;
        let expected_rate_bps = self.reward_fee_bps;
        let delta = if effective_rate_bps > expected_rate_bps {
            effective_rate_bps - expected_rate_bps
        } else {
            expected_rate_bps - effective_rate_bps
        };
        if delta > max_delta_bps {
            return Err(VaultError::VaultRewardFeeDeltaTooLarge);
        }
        Ok(())
    }

    /// The VRT to mint for a deposit: equal to the amount in an empty vault, otherwise the
    /// pro-rata share of the VRT supply.
    pub fn calculate_vrt_mint_amount(&self, amount: u64) -> (r: Result<u64, VaultError>)
        ensures
            r is Ok <==> vrt_for_deposit(self.tokens_deposited as int, self.vrt_supply as int, amount as int) <= u64::MAX,
            r matches Ok(m) ==> m == vrt_for_deposit(self.tokens_deposited as int, self.vrt_supply as int, amount as int),
            r matches Err(e) ==> e == VaultError::VaultOverflow,
    {
        if self.tokens_deposited == 0 {
            return Ok(amount);
        }
        let minted: u128 = mul_wide(amount, self.vrt_supply) / (self.tokens_deposited as u128);
        if minted > u64::MAX as u128 {
            Err(VaultError::VaultOverflow)
        } else {
            Ok(minted as u64)
        }
    }

    /// The deposit fee on an amount of VRT, rounded up.
    pub fn calculate_deposit_fee(&self, vrt_amount: u64) -> (r: Result<u64, VaultError>)
        ensures
            r is Ok <==> bps_fee(vrt_amount as int, self.deposit_fee_bps as int) <= u64::MAX,
            r matches Ok(f) ==> f == bps_fee(vrt_amount as int, self.deposit_fee_bps as int),
            r matches Err(e) ==> e == VaultError::VaultOverflow,
    {
        Config::calculate_program_fee(self.deposit_fee_bps, vrt_amount)
    }

    /// The withdrawal fee on an amount of VRT, rounded up.
    pub fn calculate_withdrawal_fee(&self, vrt_amount: u64) -> (r: Result<u64, VaultError>)
        ensures
            r is Ok <==> bps_fee(vrt_amount as int, self.withdrawal_fee_bps as int) <= u64::MAX,
            r matches Ok(f) ==> f == bps_fee(vrt_amount as int, self.withdrawal_fee_bps as int),
            r matches Err(e) ==> e == VaultError::VaultOverflow,
    {
        Config::calculate_program_fee(self.withdrawal_fee_bps, vrt_amount)
    }

    /// Deposits `amount_in` supported tokens: mints their share of VRT, of which the
    /// deposit fee goes to the fee wallet and the rest to the depositor.
    pub fn mint_with_fee(&mut self, amount_in: u64, min_amount_out: u64) -> (r: Result<MintSummary, VaultError>)
        ensures
            r == mint_outcome(*old(self), amount_in as int, min_amount_out as int),
            r matches Ok(s) ==> *final(self) == (Vault {
                vrt_supply: (old(self).vrt_supply + s.vrt_to_depositor + s.vrt_to_fee_wallet) as u64,
                tokens_deposited: (old(self).tokens_deposited + amount_in) as u64,
                ..*old(self)
            }),
            r is Err ==> *final(self) == *old(self),
    {
        if amount_in == 0 {
            return Err(VaultError::VaultMintZero);
        }
        let vault_token_amount_after_deposit = match self.tokens_deposited.checked_add(amount_in) {
            Some(t) => t,
            None => {
                return Err(VaultError::VaultOverflow);
            },
        };
        if vault_token_amount_after_deposit > self.deposit_capacity {
            return Err(VaultError::VaultCapacityExceeded);
        }
        let vrt_mint_amount = match self.calculate_vrt_mint_amount(amount_in) {
            Ok(m) => m,
            Err(e) => {
                return Err(e);
            },
        };
        let vrt_to_fee_wallet = match self.calculate_deposit_fee(vrt_mint_amount) {
            Ok(f) => f,
            Err(e) => {
                return Err(e);
            },
        };
        if vrt_to_fee_wallet > vrt_mint_amount {
            return Err(VaultError::VaultUnderflow);
        }
        let vrt_to_depositor = vrt_mint_amount - vrt_to_fee_wallet;
        if vrt_to_depositor < min_amount_out {
            return Err(VaultError::SlippageError);
        }
        let vrt_supply = match self.vrt_supply.checked_add(vrt_mint_amount) {
            Some(s) => s,
            None => {
                return Err(VaultError::VaultOverflow);
            },
        };
        self.vrt_supply = vrt_supply;
        self.tokens_deposited = vault_token_amount_after_deposit;
        Ok(MintSummary { vrt_to_depositor, vrt_to_fee_wallet })
    }

    /// Splits `amount_in` VRT handed in for a withdrawal into the program fee, the vault
    /// fee, the VRT to burn and the supported tokens to return.
    #[verifier::rlimit(40)]
    pub fn calculate_burn_summary(&self, amount_in: u64) -> (r: Result<BurnSummary, VaultError>)
        ensures
            r == burn_summary_outcome(*self, amount_in as int),
    {
        let program_fee_amount = match Config::calculate_program_fee(self.program_fee_bps, amount_in) {
            Ok(f) => f,
            Err(e) => {
                return Err(e);
            },
        };
        let mut vault_fee_amount = match self.calculate_withdrawal_fee(amount_in) {
            Ok(f) => f,
            Err(e) => {
                return Err(e);
            },
        };
        let fees = match program_fee_amount.checked_add(vault_fee_amount) {
            Some(f) => f,
            None => {
                return Err(VaultError::VaultOverflow);
            },
        };
        // the program fee takes priority over the vault fee when together they exceed the amount
        if fees > amount_in {
            if program_fee_amount > amount_in {
                return Err(VaultError::VaultUnderflow);
            }
            vault_fee_amount = amount_in - program_fee_amount;
        }
        if program_fee_amount > amount_in {
            return Err(VaultError::VaultUnderflow);
        }
        let amount_to_burn = amount_in - program_fee_amount - vault_fee_amount;
        if self.vrt_supply == 0 {
            return Err(VaultError::VaultOverflow);
        }
        let amount_out: u128 = mul_wide(amount_to_burn, self.tokens_deposited) / (self.vrt_supply as u128);
        if amount_out > u64::MAX as u128 {
            return Err(VaultError::VaultOverflow);
        }
        Ok(BurnSummary {
            program_fee_amount,
            vault_fee_amount,
            burn_amount: amount_to_burn,
            out_amount: amount_out as u64,
        })
    }

    /// Withdraws: splits the VRT handed in, burns the burned share from the supply and
    /// pays out the supported tokens, which must not exceed the undelegated tokens.
    #[verifier::rlimit(40)]
    pub fn burn_with_fee(&mut self, amount_in: u64) -> (r: Result<BurnSummary, VaultError>)
        ensures
            r == burn_outcome(*old(self), amount_in as int),
            r matches Ok(s) ==> *final(self) == (Vault {
                vrt_supply: (old(self).vrt_supply - s.burn_amount) as u64,
                tokens_deposited: (old(self).tokens_deposited - s.out_amount) as u64,
                ..*old(self)
            }),
            r is Err ==> *final(self) == *old(self),
    {
        if amount_in == 0 {
            return Err(VaultError::VaultBurnZero);
        } else if amount_in > self.vrt_supply {
            return Err(VaultError::VaultInsufficientFunds);
        }
        let summary = match self.calculate_burn_summary(amount_in) {
            Ok(s) => s,
            Err(e) => {
                return Err(e);
            },
        };
        let total_security = match self.delegation_state.total_security() {
            Ok(t) => t,
            Err(e) => {
                return Err(e);
            },
        };
        if self.tokens_deposited < total_security {
            return Err(VaultError::VaultUnderflow);
        }
        let max_withdrawable = self.tokens_deposited - total_security;
        // the vault shall not pay out more than it holds undelegated
        if summary.out_amount > max_withdrawable {
            return Err(VaultError::VaultUnderflow);
        }
        self.vrt_supply = self.vrt_supply - summary.burn_amount;
        self.tokens_deposited = self.tokens_deposited - summary.out_amount;
        Ok(summary)
    }

    /// The supported tokens to reserve for the VRT held in withdrawal tickets.
    pub fn calculate_supported_assets_requested_for_withdrawal(&self) -> (r: Result<u64, VaultError>)
        ensures
            r == requested_for_withdrawal(*self),
    {
        if self.vrt_supply == 0 {
            return Ok(0);
        }
        let vrt_reserve = match self.vrt_enqueued_for_cooldown_amount.checked_add(self.vrt_cooling_down_amount) {
            Some(x) => match x.checked_add(self.vrt_ready_to_claim_amount) {
                Some(y) => y,
                None => {
                    return Err(VaultError::VaultOverflow);
                },
            },
            None => {
                return Err(VaultError::VaultOverflow);
            },
        };
        match self.calculate_burn_summary(vrt_reserve) {
            Ok(s) => Ok(s.out_amount),
            Err(e) => Err(e),
        }
    }

    /// How many more supported tokens must be unstaked to meet the withdrawals, once the
    /// delegation state is brought to the epoch of `slot`.
    #[verifier::rlimit(40)]
    pub fn calculate_additional_supported_assets_needed_to_unstake(&self, slot: u64, epoch_length: u64) -> (r: Result<u64, VaultError>)
        ensures
            r == additional_unstake_outcome(*self, slot as int, epoch_length as int),
    {
        let amount_requested_for_withdrawals = match self.calculate_supported_assets_requested_for_withdrawal() {
            Ok(a) => a,
            Err(e) => {
                return Err(e);
            },
        };
        let mut delegation_state_after_update = self.delegation_state;
        if epoch_length == 0 {
            return Err(VaultError::DivisionByZero);
        }
        let last_epoch_update = self.last_full_state_update_slot / epoch_length;
        let this_epoch = slot / epoch_length;
        if this_epoch < last_epoch_update {
            return Err(VaultError::ArithmeticUnderflow);
        }
        let epoch_diff = this_epoch - last_epoch_update;
        if epoch_diff == 1 {
            delegation_state_after_update.update();
        } else if epoch_diff > 1 {
            // only two updates matter: enqueued -> cooling down -> released
            delegation_state_after_update.update();
            delegation_state_after_update.update();
        }
        let total_delegated_after_update = match delegation_state_after_update.total_security() {
            Ok(t) => t,
            Err(e) => {
                return Err(e);
            },
        };
        if self.tokens_deposited < total_delegated_after_update {
            return Err(VaultError::VaultUnderflow);
        }
        let undelegated_after_update = self.tokens_deposited - total_delegated_after_update;
        let assets_withdrawing_after_update = match delegation_state_after_update.enqueued_for_cooldown_amount().checked_add(
            delegation_state_after_update.cooling_down_amount(),
        ) {
            Some(w) => w,
            None => {
                return Err(VaultError::VaultOverflow);
            },
        };
        let available_for_withdrawal = match undelegated_after_update.checked_add(assets_withdrawing_after_update) {
            Some(a) => a,
            None => {
                return Err(VaultError::VaultOverflow);
            },
        };
        if amount_requested_for_withdrawals > available_for_withdrawal {
            Ok(amount_requested_for_withdrawals - available_for_withdrawal)
        } else {
            Ok(0)
        }
    }

    /// Delegates `amount` supported tokens, which must not exceed what is neither
    /// delegated nor reserved for withdrawals.
    #[verifier::rlimit(40)]
    pub fn delegate(&mut self, amount: u64) -> (r: Result<(), VaultError>)
        ensures
            r == delegate_outcome(*old(self), amount as int),
            r is Ok ==> *final(self) == (Vault { delegation_state: final(self).delegation_state, ..*old(self) })
                && final(self).delegation_state.holds(
                (old(self).delegation_state.staked() + amount) as u64,
                old(self).delegation_state.enqueued(),
                old(self).delegation_state.cooling(),
            ),
            r is Err ==> *final(self) == *old(self),
    {
        if amount == 0 {
            return Err(VaultError::VaultDelegationZero);
        } else if self.tokens_deposited == 0 || self.vrt_supply == 0 {
            return Err(VaultError::VaultUnderflow);
        }
        let amount_to_reserve_for_vrts = match self.calculate_supported_assets_requested_for_withdrawal() {
            Ok(a) => a,
            Err(e) => {
                return Err(e);
            },
        };
        let total_security = match self.delegation_state.total_security() {
            Ok(t) => t,
            Err(e) => {
                return Err(e);
            },
        };
        if self.tokens_deposited < total_security {
            return Err(VaultError::VaultUnderflow);
        }
        let undelegated = self.tokens_deposited - total_security;
        if undelegated < amount_to_reserve_for_vrts {
            return Err(VaultError::VaultUnderflow);
        }
        let amount_available_for_delegation = undelegated - amount_to_reserve_for_vrts;
        if amount > amount_available_for_delegation {
            return Err(VaultError::VaultInsufficientFunds);
        }
        match self.delegation_state.delegate(amount) {
            Ok(()) => Ok(()),
            Err(e) => {
                // the staked amount never exceeds the deposited tokens
                assert(false);
                Err(e)
            },
        }
    }

    /// Loads a vault account: it must be owned by the program, hold data, be writable when
    /// that is expected, start with the vault discriminator and have a vault's length, and
    /// sit at the program address created from the base and bump seed it records.
    pub fn load(program_id: &Address, account: &AccountView, expect_writable: bool) -> (r: Result<(), ProgramError>)
        ensures
            r == (if load_outcome(program_id@, *account, expect_writable, VAULT_DISCRIMINATOR, Some(account.key@)) is Err {
                load_outcome(program_id@, *account, expect_writable, VAULT_DISCRIMINATOR, Some(account.key@))
            } else if account.data@.len() != VAULT_ACCOUNT_LEN {
                Err(ProgramError::InvalidAccountData)
            } else {
                let seeds = vault_seeds(account.data@.subrange(VAULT_BASE_OFFSET as int, VAULT_BASE_OFFSET + 32))
                    .push(seq![account.data@[VAULT_BUMP_OFFSET as int]]);
                match created_program_address(seeds, program_id@) {
                    None => Err(ProgramError::InvalidSeeds),
                    Some(k) => if k != account.key@ {
                        Err(ProgramError::InvalidAccountData)
                    } else {
                        Ok(())
                    },
                }
            }),
    {
        if !account.owner.equals(program_id) {
            return Err(ProgramError::InvalidAccountOwner);
        }
        if account.data_is_empty() {
            return Err(ProgramError::InvalidAccountData);
        }
        if expect_writable && !account.is_writable {
            return Err(ProgramError::InvalidAccountData);
        }
        if account.data[0] != VAULT_DISCRIMINATOR {
            return Err(ProgramError::InvalidAccountData);
        }
        if account.data.len() != VAULT_ACCOUNT_LEN {
            return Err(ProgramError::InvalidAccountData);
        }
        let base = address_at(account.data.as_slice(), VAULT_BASE_OFFSET);
        let bump = account.data[VAULT_BUMP_OFFSET];
        let mut seeds = Self::seeds(&base);
        let ghost before = seeds.deep_view();
        let mut b: Vec<u8> = Vec::new();
        b.push(bump);
        proof {
            crate::address::lemma_bytes_deep_view(b);
        }
        seeds.push(b);
        assert(seeds.deep_view() =~= before.push(seq![bump]));
        match create_program_address(&seeds, program_id) {
            Some(key) => {
                if key.equals(&account.key) {
                    Ok(())
                } else {
                    Err(ProgramError::InvalidAccountData)
                }
            },
            None => Err(ProgramError::InvalidSeeds),
        }
    }

    /// The seeds of the vault account with the given base.
    pub fn seeds(base: &Address) -> (r: Vec<Vec<u8>>)
        ensures
            r.deep_view() == vault_seeds(base@),
    {
        let mut r: Vec<Vec<u8>> = Vec::new();
        r.push(seed_from_str("vault"));
        let b = base.to_vec();
        proof {
            crate::address::lemma_bytes_deep_view(b);
        }
        r.push(b);
        assert(r.deep_view() =~= vault_seeds(base@));
        r
    }

    /// The seeds of the vault account followed by its bump seed, for signing.
    pub fn signing_seeds(&self) -> (r: Vec<Vec<u8>>)
        ensures
            r.deep_view() == vault_seeds(self.base@).push(seq![self.bump]),
    {
        let mut r = Self::seeds(&self.base);
        let mut b: Vec<u8> = Vec::new();
        b.push(self.bump);
        proof {
            crate::address::lemma_bytes_deep_view(b);
        }
        let ghost before = r.deep_view();
        r.push(b);
        assert(r.deep_view() =~= before.push(seq![self.bump]));
        r
    }

    /// The program address of the vault with the given base, its bump seed and its seeds.
    pub fn find_program_address(program_id: &Address, base: &Address) -> (r: Option<(Address, u8, Vec<Vec<u8>>)>)
        ensures
            found_program_address(vault_seeds(base@), program_id@) matches Some((k, b)) ==> (r matches Some(t) && t.0@ == k
                && t.1 == b && t.2.deep_view() == vault_seeds(base@)),
            found_program_address(vault_seeds(base@), program_id@) is None ==> r is None,
    {
        let seeds = Self::seeds(base);
        match try_find_program_address(&seeds, program_id) {
            Some((key, bump)) => Some((key, bump, seeds)),
            None => None,
        }
    }

}

/// A reward fee is only accepted at about the vault's rate: when the check passes on a
/// nonzero fee, the fee's effective rate is within `max_delta_bps` of the vault's reward
/// fee on both sides; a fee whose effective rate lies further off, above or below, is
/// refused with `VaultRewardFeeDeltaTooLarge` once the rates can be computed.
pub proof fn lemma_reward_fee_effective_rate_bounded(v: Vault, st_rewards: u64, vrt_reward_fee: u64, max_delta_bps: u16)
    ensures
        reward_fee_rate_outcome(v, st_rewards as int, vrt_reward_fee as int, max_delta_bps as int) is Ok && vrt_reward_fee > 0
            ==> reward_fee_rate_within(v, st_rewards as int, vrt_reward_fee as int, max_delta_bps as int),
        ({
            let ratio = v.tokens_deposited * 10_000 / (v.vrt_supply as int);
            let eff = effective_reward_fee_rate(v, st_rewards as int, vrt_reward_fee as int);
            max_delta_bps <= 10_000 && vrt_reward_fee > 0 && v.vrt_supply > 0 && ratio > 0
                && st_rewards * 10_000 / ratio > 0 && eff <= u16::MAX
                && (eff > v.reward_fee_bps + max_delta_bps || eff < v.reward_fee_bps - max_delta_bps)
                ==> reward_fee_rate_outcome(v, st_rewards as int, vrt_reward_fee as int, max_delta_bps as int)
                == Err::<(), VaultError>(VaultError::VaultRewardFeeDeltaTooLarge)
        }),
{
}

} // verus!
