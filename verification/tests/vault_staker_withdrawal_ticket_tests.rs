use std::mem::size_of;

use vault_core::vault_staker_withdrawal_ticket::VAULT_STAKER_WITHDRAWAL_TICKET_ACCOUNT_LEN;
#[test]
fn test_vault_staker_withdrawal_ticket_no_padding() {
    let vault_staker_withdrawal_ticket_size = VAULT_STAKER_WITHDRAWAL_TICKET_ACCOUNT_LEN - 8;
    let sum_of_fields = size_of::<[u8; 32]>() + // vault
        size_of::<[u8; 32]>() + // staker
        size_of::<[u8; 32]>() + // base
        size_of::<u64>() + // vrt_amount
        size_of::<u64>() + // slot_unstaked
        size_of::<u8>() + // bump
        263; // reserved
    assert_eq!(vault_staker_withdrawal_ticket_size, sum_of_fields);
}
