use solana_program::pubkey::Pubkey;
use vault_core::address::Address;
use vault_core::delegation_state::DelegationState;
use vault_core::slot_toggle::{SlotToggle, SlotToggleState};
use vault_core::vault::Vault;
use vault_core::vault_update_state_tracker::VaultUpdateStateTracker;

fn new_key() -> Address {
    Address::new(Pubkey::new_unique().to_bytes())
}

fn vault_with(deposit_fee_bps: u16, tokens: u64, supply: u64) -> Vault {
    let mut vault = Vault::new(new_key(), new_key(), new_key(), 0, new_key(), deposit_fee_bps, 0, 0, 0, 0, 0).unwrap();
    vault.tokens_deposited = tokens;
    vault.vrt_supply = supply;
    vault
}

#[test]
fn test_splitting_a_deposit_never_lowers_the_fee() {
    let vault = vault_with(30, 0, 0);
    let whole = vault.calculate_deposit_fee(1_000).unwrap();
    let parts = vault.calculate_deposit_fee(333).unwrap() + vault.calculate_deposit_fee(667).unwrap();
    assert_eq!(whole, 3);
    assert_eq!(parts, 4);
    assert!(parts >= whole);
}

#[test]
fn test_positive_fee_on_positive_amount() {
    let vault = vault_with(1, 0, 0);
    assert_eq!(vault.calculate_deposit_fee(1).unwrap(), 1);
}

#[test]
fn test_deposit_mints_no_more_than_its_share() {
    let mut vault = vault_with(0, 3_000, 1_000);
    let s = vault.mint_with_fee(100, 0).unwrap();
    // 100 tokens are a thirtieth of the deposits: 33 VRT, rounded down
    assert_eq!(s.vrt_to_depositor + s.vrt_to_fee_wallet, 33);
    assert!((s.vrt_to_depositor + s.vrt_to_fee_wallet) * 3_000 <= 100 * 1_000);
    assert_eq!(vault.tokens_deposited(), 3_100);
    assert_eq!(vault.vrt_supply(), 1_033);
}

#[test]
fn test_withdrawal_accounts_for_every_vrt() {
    let mut vault = Vault::new(new_key(), new_key(), new_key(), 0, new_key(), 0, 250, 0, 50, 0, 0).unwrap();
    vault.tokens_deposited = 3_000;
    vault.vrt_supply = 1_000;
    let s = vault.burn_with_fee(101).unwrap();
    assert_eq!(s.program_fee_amount + s.vault_fee_amount + s.burn_amount, 101);
    assert!(s.out_amount * 1_000 <= s.burn_amount * 3_000);
    assert_eq!(vault.vrt_supply(), 1_000 - s.burn_amount);
    assert_eq!(vault.tokens_deposited(), 3_000 - s.out_amount);
}

#[test]
fn test_withdrawal_keeps_stake_covered() {
    let mut vault = vault_with(0, 1_000, 1_000);
    vault.delegation_state = DelegationState::new(900, 0, 0);
    // 101 tokens would leave the 900 delegated uncovered
    assert!(vault.burn_with_fee(101).is_err());
    let s = vault.burn_with_fee(100).unwrap();
    assert_eq!(s.out_amount, 100);
    assert!(vault.delegation_state.total_security().unwrap() <= vault.tokens_deposited());
}

#[test]
fn test_subtract_undoes_accumulate() {
    let a = DelegationState::new(1, 2, 3);
    let b = DelegationState::new(10, 20, 30);
    let mut c = a;
    c.accumulate(&b).unwrap();
    c.subtract(&b).unwrap();
    assert_eq!(c, a);
}

#[test]
fn test_cooldown_keeps_total_and_two_updates_release() {
    let mut d = DelegationState::new(100, 20, 30);
    d.cooldown(40).unwrap();
    assert_eq!(d.total_security().unwrap(), 150);
    d.update();
    assert_eq!(d, DelegationState::new(60, 0, 60));
    d.update();
    assert_eq!(d, DelegationState::new(60, 0, 0));
}

#[test]
fn test_slash_takes_exactly_the_amount() {
    let mut d = DelegationState::new(10, 20, 30);
    d.slash(25).unwrap();
    assert_eq!(d, DelegationState::new(0, 5, 30));
    assert_eq!(d.total_security().unwrap(), 35);
}

#[test]
fn test_toggle_warm_up_and_cool_down() {
    let mut t = SlotToggle::new(0);
    assert!(t.activate(50, 100).unwrap());
    assert_eq!(t.state(150, 100), Ok(SlotToggleState::WarmUp));
    assert_eq!(t.state(250, 100), Ok(SlotToggleState::Active));
    assert_eq!(t.state(10_000, 100), Ok(SlotToggleState::Active));
    assert!(t.deactivate(250, 100).unwrap());
    assert_eq!(t.state(350, 100), Ok(SlotToggleState::Cooldown));
    assert_eq!(t.state(450, 100), Ok(SlotToggleState::Inactive));
}

#[test]
fn test_update_visits_every_operator_once() {
    // epoch 5 with 3 operators starts at index 2
    let mut t = VaultUpdateStateTracker::new(new_key(), 5, 0, 0);
    for index in [2, 0, 1] {
        assert!(!t.all_operators_updated(3).unwrap());
        t.check_and_update_index(index, 3).unwrap();
    }
    assert!(t.all_operators_updated(3).unwrap());
}

#[test]
fn test_deposit_then_withdraw_never_profits() {
    let mut vault = Vault::new(new_key(), new_key(), new_key(), 0, new_key(), 100, 100, 0, 10, 0, 0).unwrap();
    vault.tokens_deposited = 7_000;
    vault.vrt_supply = 3_000;
    let minted = vault.mint_with_fee(1_000, 0).unwrap();
    let withdrawn = vault.burn_with_fee(minted.vrt_to_depositor).unwrap();
    assert!(withdrawn.out_amount <= 1_000);
    assert_eq!(minted.vrt_to_depositor, 423);
    assert_eq!(withdrawn.out_amount, 973);
}
