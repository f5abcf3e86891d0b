use vault_core::address::Address;
use vault_core::slot_toggle::{SlotToggleState, SLOT_TOGGLE_LEN};
use vault_core::vault_ncn_ticket::{VaultNcnTicket, VAULT_NCN_TICKET_ACCOUNT_LEN};
#[test]
fn test_vault_ncn_ticket_no_padding() {
    let vault_ncn_ticket_size = VAULT_NCN_TICKET_ACCOUNT_LEN - 8;
    let sum_of_fields = std::mem::size_of::<[u8; 32]>() + // vault
        std::mem::size_of::<[u8; 32]>() + // ncn
        std::mem::size_of::<u64>() + // index
        SLOT_TOGGLE_LEN + // state
        std::mem::size_of::<u8>() + // bump
        263; // reserved
    assert_eq!(vault_ncn_ticket_size, sum_of_fields);
}

#[test]
fn test_vault_ncn_ticket_inactive_on_creation() {
    let slot = 1;
    let vault_ncn_ticket =
        VaultNcnTicket::new(Address::default(), Address::default(), slot, 0, slot);
    assert_eq!(
        vault_ncn_ticket.state.state(slot + 1, 100),
        Ok(SlotToggleState::Inactive)
    );
}
