//! Withdrawals from a vault: a staker enqueues VRT in a withdrawal ticket; once the ticket
//! is withdrawable the VRT is split into fees and VRT to burn, and the staker is paid the
//! supported tokens. A staker may also burn VRT at once.
//!
//! Every function here works on a copy of the vault and writes it back only when it
//! succeeds, as the runtime discards the writes of a failed instruction.
use vstd::prelude::*;
use crate::account::{AccountView, found_key};
use crate::address::{Address, found_program_address, zero_key};
use crate::config::Config;
use crate::error::{ProgramError, VaultError, program_error_of};
use crate::vault::{Vault, BurnSummary, burn_outcome, vault_seeds, vrt_for_deposit};
use crate::vault_staker_withdrawal_ticket::{VaultStakerWithdrawalTicket, vault_staker_withdrawal_ticket_seeds};

verus! {

/// Whether the mint/burn admin check passes: a vault without one accepts anyone, else its
/// admin must be handed in and sign.
pub open spec fn mint_burn_admin_ok(vault: Vault, mint_burn_admin: Option<&AccountView>) -> bool {
    vault.mint_burn_admin@ == zero_key() || (mint_burn_admin matches Some(a) && a.is_signer
        && a.key@ == vault.mint_burn_admin@)
}

/// Why the vault refuses a withdrawal at `slot`, before looking at the amounts: a missing
/// mint/burn admin, an epoch length of zero, a pending update, a pause.
pub open spec fn withdrawal_gate_error(
    config: Config,
    vault: Vault,
    mint_burn_admin: Option<&AccountView>,
    slot: int,
) -> Option<ProgramError> {
    let el = config.epoch_length as int;
    if !mint_burn_admin_ok(vault, mint_burn_admin) {
        Some(program_error_of(VaultError::VaultMintBurnAdminInvalid))
    } else if el == 0 {
        Some(program_error_of(VaultError::DivisionByZero))
    } else if (vault.last_full_state_update_slot as int) / el < slot / el {
        Some(program_error_of(VaultError::VaultUpdateNeeded))
    } else if vault.is_paused {
        Some(program_error_of(VaultError::VaultIsPaused))
    } else {
        None
    }
}

/// A new withdrawal ticket and the seeds its account is created with.
#[derive(Debug, Clone)]
pub struct EnqueuedWithdrawal {
    pub ticket: VaultStakerWithdrawalTicket,
    /// The ticket's seeds, bump seed last.
    pub signer_seeds: Vec<Vec<u8>>,
}

/// Why enqueueing a withdrawal is refused, or `None` when it is made.
pub open spec fn enqueue_error(
    program_id: Seq<u8>,
    config: Config,
    vault_key: Seq<u8>,
    vault: Vault,
    ticket_key: Seq<u8>,
    base: Seq<u8>,
    mint_burn_admin: Option<&AccountView>,
    slot: int,
    vrt_amount: int,
) -> Option<ProgramError> {
    if withdrawal_gate_error(config, vault, mint_burn_admin, slot) is Some {
        withdrawal_gate_error(config, vault, mint_burn_admin, slot)
    } else if vrt_amount == 0 {
        Some(program_error_of(VaultError::VaultEnqueueWithdrawalAmountZero))
    } else if found_key(vault_staker_withdrawal_ticket_seeds(vault_key, base), program_id) != Some(ticket_key) {
        Some(ProgramError::InvalidAccountData)
    } else if vault.vrt_enqueued_for_cooldown_amount + vrt_amount > u64::MAX {
        Some(program_error_of(VaultError::VaultOverflow))
    } else {
        None
    }
}

/// Enqueues `vrt_amount` VRT of the staker for withdrawal: the vault must accept
/// withdrawals at `slot`, the amount must not be zero and the ticket must sit at its
/// program address for the vault and the base. The ticket records the amount and the
/// slot; the vault counts the VRT as enqueued for cooldown.
pub fn process_enqueue_withdrawal(
    program_id: &Address,
    config: &Config,
    vault_key: &Address,
    vault: &mut Vault,
    ticket_key: &Address,
    staker: &Address,
    base: &Address,
    mint_burn_admin: Option<&AccountView>,
    slot: u64,
    vrt_amount: u64,
) -> (r: Result<EnqueuedWithdrawal, ProgramError>)
    ensures
        r matches Err(e) ==> enqueue_error(program_id@, *config, vault_key@, *old(vault), ticket_key@, base@,
            mint_burn_admin, slot as int, vrt_amount as int) == Some(e),
        r is Ok <==> enqueue_error(program_id@, *config, vault_key@, *old(vault), ticket_key@, base@, mint_burn_admin,
            slot as int, vrt_amount as int) is None,
        r is Err ==> *final(vault) == *old(vault),
        r matches Ok(w) ==> {
            let seeds = vault_staker_withdrawal_ticket_seeds(vault_key@, base@);
            &&& found_program_address(seeds, program_id@) matches Some((_, bump))
            &&& w.ticket == VaultStakerWithdrawalTicket {
                vault: *vault_key,
                staker: *staker,
                base: *base,
                vrt_amount,
                slot_unstaked: slot,
                bump,
            }
            &&& w.signer_seeds.deep_view() == seeds.push(seq![bump])
            &&& *final(vault) == (Vault {
                vrt_enqueued_for_cooldown_amount: (old(vault).vrt_enqueued_for_cooldown_amount + vrt_amount) as u64,
                ..*old(vault)
            })
        },
{
    match vault.check_mint_burn_admin(mint_burn_admin) {
        Ok(()) => {},
        Err(e) => {
            return Err(ProgramError::from(e));
        },
    }
    match vault.check_update_state_ok(slot, config.epoch_length) {
        Ok(()) => {},
        Err(e) => {
            return Err(e);
        },
    }
    match vault.check_is_paused() {
        Ok(()) => {},
        Err(e) => {
            return Err(ProgramError::from(e));
        },
    }
    if vrt_amount == 0 {
        return Err(ProgramError::from(VaultError::VaultEnqueueWithdrawalAmountZero));
    }
    let (key, bump, mut seeds) = match VaultStakerWithdrawalTicket::find_program_address(program_id, vault_key, base) {
        Some(found) => found,
        None => {
            return Err(ProgramError::InvalidAccountData);
        },
    };
    if !key.equals(ticket_key) {
        return Err(ProgramError::InvalidAccountData);
    }
    push_bump(&mut seeds, bump);
    let ticket = VaultStakerWithdrawalTicket::new(*vault_key, *staker, *base, vrt_amount, slot, bump);
    match vault.increment_vrt_enqueued_for_cooldown_amount(vrt_amount) {
        Ok(()) => {},
        Err(e) => {
            return Err(ProgramError::from(e));
        },
    }
    Ok(EnqueuedWithdrawal { ticket, signer_seeds: seeds })
}

/// Appends the bump seed to a list of seeds.
fn push_bump(seeds: &mut Vec<Vec<u8>>, bump: u8)
    ensures
        final(seeds).deep_view() == old(seeds).deep_view().push(seq![bump]),
{
    let ghost before = seeds.deep_view();
    let mut b: Vec<u8> = Vec::new();
    b.push(bump);
    proof {
        crate::address::lemma_bytes_deep_view(b);
    }
    seeds.push(b);
    assert(seeds.deep_view() =~= before.push(seq![bump]));
}

/// The payout of a withdrawal ticket and the seeds of the two accounts that sign for it.
#[derive(Debug, Clone)]
pub struct WithdrawalPayout {
    pub summary: BurnSummary,
    /// The ticket's seeds, bump seed last: it signs the fee transfers, the burn and the
    /// closing of its token account.
    pub ticket_signer_seeds: Vec<Vec<u8>>,
    /// The vault's seeds, bump seed last: it signs the payment to the staker.
    pub vault_signer_seeds: Vec<Vec<u8>>,
}

/// Why burning a withdrawal ticket is refused, or `None` when it is paid out.
pub open spec fn burn_ticket_error(
    program_id: Seq<u8>,
    config: Config,
    vault_key: Seq<u8>,
    vault: Vault,
    ticket: VaultStakerWithdrawalTicket,
    staker: Seq<u8>,
    vrt_mint: Seq<u8>,
    mint_burn_admin: Option<&AccountView>,
    slot: int,
) -> Option<ProgramError> {
    let el = config.epoch_length as int;
    if !mint_burn_admin_ok(vault, mint_burn_admin) {
        Some(program_error_of(VaultError::VaultMintBurnAdminInvalid))
    } else if vault.vrt_mint@ != vrt_mint {
        Some(ProgramError::InvalidAccountData)
    } else if withdrawal_gate_error(config, vault, mint_burn_admin, slot) is Some {
        withdrawal_gate_error(config, vault, mint_burn_admin, slot)
    } else if ticket.staker@ != staker {
        Some(program_error_of(VaultError::VaultStakerWithdrawalTicketInvalidStaker))
    } else if (ticket.slot_unstaked as int) / el == u64::MAX {
        Some(program_error_of(VaultError::ArithmeticOverflow))
    } else if slot / el <= (ticket.slot_unstaked as int) / el + 1 {
        Some(program_error_of(VaultError::VaultStakerWithdrawalTicketNotWithdrawable))
    } else if burn_outcome(vault, ticket.vrt_amount as int) is Err {
        Some(program_error_of(burn_outcome(vault, ticket.vrt_amount as int)->Err_0))
    } else if vault.vrt_ready_to_claim_amount < ticket.vrt_amount {
        Some(program_error_of(VaultError::VaultUnderflow))
    } else if found_program_address(vault_staker_withdrawal_ticket_seeds(vault_key, ticket.base@), program_id) is None
        || found_program_address(vault_seeds(vault.base@), program_id) is None {
        Some(ProgramError::InvalidSeeds)
    } else {
        None
    }
}

/// Pays out a withdrawal ticket once it is withdrawable: the vault must accept withdrawals
/// at `slot`, the VRT mint must be the vault's and the staker the ticket's. The ticket's
/// VRT is split as `Vault::burn_with_fee` splits it; the vault burns the burned VRT, pays
/// out the tokens and no longer counts the ticket's VRT as ready to claim.
pub fn process_burn_withdrawal_ticket(
    program_id: &Address,
    config: &Config,
    vault_key: &Address,
    vault: &mut Vault,
    ticket: &VaultStakerWithdrawalTicket,
    staker: &Address,
    vrt_mint: &Address,
    mint_burn_admin: Option<&AccountView>,
    slot: u64,
) -> (r: Result<WithdrawalPayout, ProgramError>)
    ensures
        r matches Err(e) ==> burn_ticket_error(program_id@, *config, vault_key@, *old(vault), *ticket, staker@, vrt_mint@,
            mint_burn_admin, slot as int) == Some(e),
        r is Ok <==> burn_ticket_error(program_id@, *config, vault_key@, *old(vault), *ticket, staker@, vrt_mint@,
            mint_burn_admin, slot as int) is None,
        r is Err ==> *final(vault) == *old(vault),
        r matches Ok(p) ==> {
            let ticket_seeds = vault_staker_withdrawal_ticket_seeds(vault_key@, ticket.base@);
            &&& burn_outcome(*old(vault), ticket.vrt_amount as int) == Ok::<BurnSummary, VaultError>(p.summary)
            &&& *final(vault) == (Vault {
                vrt_supply: (old(vault).vrt_supply - p.summary.burn_amount) as u64,
                tokens_deposited: (old(vault).tokens_deposited - p.summary.out_amount) as u64,
                vrt_ready_to_claim_amount: (old(vault).vrt_ready_to_claim_amount - ticket.vrt_amount) as u64,
                ..*old(vault)
            })
            &&& found_program_address(ticket_seeds, program_id@) matches Some((_, tb))
                && p.ticket_signer_seeds.deep_view() == ticket_seeds.push(seq![tb])
            &&& found_program_address(vault_seeds(old(vault).base@), program_id@) matches Some((_, vb))
                && p.vault_signer_seeds.deep_view() == vault_seeds(old(vault).base@).push(seq![vb])
        },
{
    match vault.check_mint_burn_admin(mint_burn_admin) {
        Ok(()) => {},
        Err(e) => {
            return Err(ProgramError::from(e));
        },
    }
    match vault.check_vrt_mint(vrt_mint) {
        Ok(()) => {},
        Err(e) => {
            return Err(e);
        },
    }
    match vault.check_update_state_ok(slot, config.epoch_length) {
        Ok(()) => {},
        Err(e) => {
            return Err(e);
        },
    }
    match vault.check_is_paused() {
        Ok(()) => {},
        Err(e) => {
            return Err(ProgramError::from(e));
        },
    }
    match ticket.check_staker(staker) {
        Ok(()) => {},
        Err(e) => {
            return Err(ProgramError::from(e));
        },
    }
    match ticket.is_withdrawable(slot, config.epoch_length) {
        Ok(true) => {},
        Ok(false) => {
            return Err(ProgramError::from(VaultError::VaultStakerWithdrawalTicketNotWithdrawable));
        },
        Err(e) => {
            return Err(e);
        },
    }
    let mut vault2 = *vault;
    let summary = match vault2.burn_with_fee(ticket.vrt_amount) {
        Ok(s) => s,
        Err(e) => {
            return Err(ProgramError::from(e));
        },
    };
    match vault2.decrement_vrt_ready_to_claim_amount(ticket.vrt_amount) {
        Ok(()) => {},
        Err(e) => {
            return Err(ProgramError::from(e));
        },
    }
    let ticket_seeds = match VaultStakerWithdrawalTicket::find_program_address(program_id, vault_key, &ticket.base) {
        Some((_, bump, seeds)) => {
            let mut s = seeds;
            push_bump(&mut s, bump);
            s
        },
        None => {
            return Err(ProgramError::InvalidSeeds);
        },
    };
    let vault_seeds_with_bump = match Vault::find_program_address(program_id, &vault.base) {
        Some((_, bump, seeds)) => {
            let mut s = seeds;
            push_bump(&mut s, bump);
            s
        },
        None => {
            return Err(ProgramError::InvalidSeeds);
        },
    };
    *vault = vault2;
    Ok(WithdrawalPayout { summary, ticket_signer_seeds: ticket_seeds, vault_signer_seeds: vault_seeds_with_bump })
}

/// Why an immediate burn is refused, or `None` when it is made.
pub open spec fn burn_error(
    program_id: Seq<u8>,
    config: Config,
    vault: Vault,
    vrt_mint: Seq<u8>,
    mint_burn_admin: Option<&AccountView>,
    slot: int,
    amount_in: int,
    min_amount_out: int,
) -> Option<ProgramError> {
    let el = config.epoch_length as int;
    if vault.vrt_mint@ != vrt_mint {
        Some(ProgramError::InvalidAccountData)
    } else if el == 0 {
        Some(program_error_of(VaultError::DivisionByZero))
    } else if (vault.last_full_state_update_slot as int) / el < slot / el {
        Some(program_error_of(VaultError::VaultUpdateNeeded))
    } else if !mint_burn_admin_ok(vault, mint_burn_admin) {
        Some(program_error_of(VaultError::VaultMintBurnAdminInvalid))
    } else if vault.is_paused {
        Some(program_error_of(VaultError::VaultIsPaused))
    } else if burn_outcome(vault, amount_in) is Err {
        Some(program_error_of(burn_outcome(vault, amount_in)->Err_0))
    } else if burn_outcome(vault, amount_in)->Ok_0.out_amount < min_amount_out {
        Some(program_error_of(VaultError::SlippageError))
    } else if found_program_address(vault_seeds(vault.base@), program_id) is None {
        Some(ProgramError::InvalidSeeds)
    } else {
        None
    }
}

/// The split of an immediate burn and the seeds the vault signs the payment with.
#[derive(Debug, Clone)]
pub struct BurnPayout {
    pub summary: BurnSummary,
    /// The vault's seeds, bump seed last.
    pub vault_signer_seeds: Vec<Vec<u8>>,
}

/// Burns `amount_in` of the staker's VRT at once: the VRT mint must be the vault's and the
/// vault must accept withdrawals at `slot`. The VRT is split as `Vault::burn_with_fee`
/// splits it, and the staker must receive at least `min_amount_out` tokens.
pub fn process_burn(
    program_id: &Address,
    config: &Config,
    vault: &mut Vault,
    vrt_mint: &Address,
    mint_burn_admin: Option<&AccountView>,
    slot: u64,
    amount_in: u64,
    min_amount_out: u64,
) -> (r: Result<BurnPayout, ProgramError>)
    ensures
        r matches Err(e) ==> burn_error(program_id@, *config, *old(vault), vrt_mint@, mint_burn_admin, slot as int,
            amount_in as int, min_amount_out as int) == Some(e),
        r is Ok <==> burn_error(program_id@, *config, *old(vault), vrt_mint@, mint_burn_admin, slot as int,
            amount_in as int, min_amount_out as int) is None,
        r is Err ==> *final(vault) == *old(vault),
        r matches Ok(p) ==> {
            &&& burn_outcome(*old(vault), amount_in as int) == Ok::<BurnSummary, VaultError>(p.summary)
            &&& p.summary.out_amount >= min_amount_out
            &&& *final(vault) == (Vault {
                vrt_supply: (old(vault).vrt_supply - p.summary.burn_amount) as u64,
                tokens_deposited: (old(vault).tokens_deposited - p.summary.out_amount) as u64,
                ..*old(vault)
            })
            &&& found_program_address(vault_seeds(old(vault).base@), program_id@) matches Some((_, vb))
                && p.vault_signer_seeds.deep_view() == vault_seeds(old(vault).base@).push(seq![vb])
        },
{
    match vault.check_vrt_mint(vrt_mint) {
        Ok(()) => {},
        Err(e) => {
            return Err(e);
        },
    }
    match vault.check_update_state_ok(slot, config.epoch_length) {
        Ok(()) => {},
        Err(e) => {
            return Err(e);
        },
    }
    match vault.check_mint_burn_admin(mint_burn_admin) {
        Ok(()) => {},
        Err(e) => {
            return Err(ProgramError::from(e));
        },
    }
    match vault.check_is_paused() {
        Ok(()) => {},
        Err(e) => {
            return Err(ProgramError::from(e));
        },
    }
    let mut vault2 = *vault;
    let summary = match vault2.burn_with_fee(amount_in) {
        Ok(s) => s,
        Err(e) => {
            return Err(ProgramError::from(e));
        },
    };
    if summary.out_amount < min_amount_out {
        return Err(ProgramError::from(VaultError::SlippageError));
    }
    let vault_seeds_with_bump = match Vault::find_program_address(program_id, &vault.base) {
        Some((_, bump, seeds)) => {
            let mut s = seeds;
            push_bump(&mut s, bump);
            s
        },
        None => {
            return Err(ProgramError::InvalidSeeds);
        },
    };
    *vault = vault2;
    Ok(BurnPayout { summary, vault_signer_seeds: vault_seeds_with_bump })
}

/// The tokens a withdrawal ticket pays out: what the ticket's VRT is worth now, but when
/// rewards made it worth more than what was set aside at enqueueing, only as much of the
/// gain as the vault holds unstaked and unreserved.
pub open spec fn ticket_payout(
    redemption_amount: int,
    original_redemption_amount: int,
    tokens_deposited: int,
    delegated_security: int,
    reserved_for_tickets: int,
) -> Result<u64, ProgramError> {
    if redemption_amount > original_redemption_amount {
        if tokens_deposited < delegated_security || tokens_deposited - delegated_security < reserved_for_tickets {
            Err(ProgramError::InsufficientFunds)
        } else {
            let available = tokens_deposited - delegated_security - reserved_for_tickets;
            let extra = redemption_amount - original_redemption_amount;
            let payout = original_redemption_amount + (if extra <= available { extra } else { available });
            if payout > u64::MAX {
                Err(ProgramError::ArithmeticOverflow)
            } else {
                Ok(payout as u64)
            }
        }
    } else {
        Ok(redemption_amount as u64)
    }
}

/// The tokens a withdrawal ticket pays out and the VRT it burns: the VRT to burn is what
/// the payout would mint now, but never more than the ticket holds.
pub fn process_burn_withdraw_ticket(
    vault: &Vault,
    ticket_vrt_amount: u64,
    redemption_amount: u64,
    original_redemption_amount: u64,
    delegated_security: u64,
    reserved_for_tickets: u64,
) -> (r: Result<(u64, u64), ProgramError>)
    ensures
        match ticket_payout(redemption_amount as int, original_redemption_amount as int, vault.tokens_deposited as int,
            delegated_security as int, reserved_for_tickets as int) {
            Err(e) => r == Err::<(u64, u64), ProgramError>(e),
            Ok(payout) => {
                let to_burn = vrt_for_deposit(vault.tokens_deposited as int, vault.vrt_supply as int, payout as int);
                if to_burn > u64::MAX {
                    r == Err::<(u64, u64), ProgramError>(program_error_of(VaultError::VaultOverflow))
                } else {
                    r == Ok::<(u64, u64), ProgramError>((payout, (if to_burn <= ticket_vrt_amount { to_burn } else { ticket_vrt_amount as int }) as u64))
                }
            },
        },
{
    let actual_withdraw_amount = if redemption_amount > original_redemption_amount {
        let unstaked = match vault.tokens_deposited.checked_sub(delegated_security) {
            Some(x) => x,
            None => {
                return Err(ProgramError::InsufficientFunds);
            },
        };
        let available_unstaked_assets = match unstaked.checked_sub(reserved_for_tickets) {
            Some(x) => x,
            None => {
                return Err(ProgramError::InsufficientFunds);
            },
        };
        let extra_amount = redemption_amount - original_redemption_amount;
        let extra = if extra_amount <= available_unstaked_assets {
            extra_amount
        } else {
            available_unstaked_assets
        };
        match original_redemption_amount.checked_add(extra) {
            Some(x) => x,
            None => {
                return Err(ProgramError::ArithmeticOverflow);
            },
        }
    } else {
        redemption_amount
    };
    let vrt_to_burn = match vault.calculate_vrt_mint_amount(actual_withdraw_amount) {
        Ok(x) => x,
        Err(e) => {
            return Err(ProgramError::from(e));
        },
    };
    let vrt_amount_to_burn = if vrt_to_burn <= ticket_vrt_amount {
        vrt_to_burn
    } else {
        ticket_vrt_amount
    };
    Ok((actual_withdraw_amount, vrt_amount_to_burn))
}

/// Checks a withdrawal from a vault whose VRT is frozen in the stakers' accounts: the VRT
/// mint must be the vault's and the VRT frozen. Returns the seeds, bump seed last, the
/// vault signs with to thaw the staker's VRT for the withdrawal and freeze it again.
pub fn process_enqueue_withdrawal_frozen(vault: &Vault, vrt_mint: &Address, vrt_is_frozen: bool) -> (r: Result<Vec<Vec<u8>>, ProgramError>)
    ensures
        r is Ok <==> (vault.vrt_mint@ == vrt_mint@ && vrt_is_frozen),
        r matches Err(e) ==> (if vault.vrt_mint@ != vrt_mint@ {
            e == ProgramError::InvalidAccountData
        } else {
            e == program_error_of(VaultError::VaultNotFrozen)
        }),
        r matches Ok(seeds) ==> seeds.deep_view() == vault_seeds(vault.base@).push(seq![vault.bump]),
{
    match vault.check_vrt_mint(vrt_mint) {
        Ok(()) => {},
        Err(e) => {
            return Err(e);
        },
    }
    if !vrt_is_frozen {
        return Err(ProgramError::from(VaultError::VaultNotFrozen));
    }
    Ok(vault.signing_seeds())
}

/// Only the ticket's staker is paid out, for the vault's own VRT mint, by a vault that is
/// up to date and not paused, and, when the vault has a mint/burn admin, only with that
/// admin's signature; the ticket must have waited more than a full epoch since it was
/// enqueued.
pub proof fn lemma_burn_ticket_permissions(
    program_id: Seq<u8>,
    config: Config,
    vault_key: Seq<u8>,
    vault: Vault,
    ticket: VaultStakerWithdrawalTicket,
    staker: Seq<u8>,
    vrt_mint: Seq<u8>,
    mint_burn_admin: Option<&AccountView>,
    slot: int,
)
    requires
        burn_ticket_error(program_id, config, vault_key, vault, ticket, staker, vrt_mint, mint_burn_admin, slot) is None,
    ensures
        ticket.staker@ == staker,
        vault.vrt_mint@ == vrt_mint,
        !vault.is_paused,
        config.epoch_length > 0,
        (vault.last_full_state_update_slot as int) / (config.epoch_length as int) >= slot / (config.epoch_length as int),
        vault.mint_burn_admin@ != zero_key() ==> (mint_burn_admin matches Some(a) && a.is_signer
            && a.key@ == vault.mint_burn_admin@),
        slot / (config.epoch_length as int) > (ticket.slot_unstaked as int) / (config.epoch_length as int) + 1,
{
}

/// A withdrawal is only enqueued by a vault that is up to date and not paused, for more
/// than nothing, and, when the vault has a mint/burn admin, only with that admin's
/// signature; the new ticket belongs to the vault and the staker and sits at the program
/// address of the vault and the base.
pub proof fn lemma_enqueue_permissions(
    program_id: Seq<u8>,
    config: Config,
    vault_key: Seq<u8>,
    vault: Vault,
    ticket_key: Seq<u8>,
    base: Seq<u8>,
    mint_burn_admin: Option<&AccountView>,
    slot: int,
    vrt_amount: int,
)
    requires
        enqueue_error(program_id, config, vault_key, vault, ticket_key, base, mint_burn_admin, slot, vrt_amount) is None,
    ensures
        !vault.is_paused,
        vrt_amount != 0,
        config.epoch_length > 0,
        (vault.last_full_state_update_slot as int) / (config.epoch_length as int) >= slot / (config.epoch_length as int),
        vault.mint_burn_admin@ != zero_key() ==> (mint_burn_admin matches Some(a) && a.is_signer
            && a.key@ == vault.mint_burn_admin@),
        found_key(vault_staker_withdrawal_ticket_seeds(vault_key, base), program_id) == Some(ticket_key),
{
}

/// A paid-out ticket takes nothing from the vault beyond what the split gives: the VRT
/// supply and the deposited tokens only shrink, the supply by no more than the ticket's
/// VRT, the tokens by no more than the burned VRT's pro-rata share, the fees and the
/// burned VRT add up to the ticket's VRT, and the delegated stake stays covered.
pub proof fn lemma_burn_ticket_no_dilution(vault: Vault, ticket_vrt: u64, s: BurnSummary, vault2: Vault)
    requires
        burn_outcome(vault, ticket_vrt as int) == Ok::<BurnSummary, VaultError>(s),
        vault.vrt_ready_to_claim_amount >= ticket_vrt,
        vault2 == (Vault {
            vrt_supply: (vault.vrt_supply - s.burn_amount) as u64,
            tokens_deposited: (vault.tokens_deposited - s.out_amount) as u64,
            vrt_ready_to_claim_amount: (vault.vrt_ready_to_claim_amount - ticket_vrt) as u64,
            ..vault
        }),
    ensures
        vault2.tokens_deposited <= vault.tokens_deposited,
        vault2.vrt_supply <= vault.vrt_supply,
        vault.vrt_supply - vault2.vrt_supply <= ticket_vrt,
        (vault.tokens_deposited - vault2.tokens_deposited) * vault.vrt_supply
            <= (vault.vrt_supply - vault2.vrt_supply) * vault.tokens_deposited,
        s.burn_amount + s.vault_fee_amount + s.program_fee_amount == ticket_vrt,
        vault2.delegation_state.total() <= vault2.tokens_deposited,
{
    crate::vault_laws::lemma_burn_keeps_stake_covered(vault, ticket_vrt, s);
    match crate::vault::burn_summary_outcome(vault, ticket_vrt as int) {
        Ok(s0) => {
            assert(s0 == s);
            crate::vault_laws::lemma_burn_no_dilution(vault, ticket_vrt, s);
        },
        Err(_) => {},
    }
}

} // verus!
