//! Errors of the delegation list and of the per-operator delegation records.
use vstd::prelude::*;
use crate::error::ProgramError;

verus! {

pub type VaultCoreResult<T> = Result<T, VaultCoreError>;

#[derive(Debug, PartialEq, Eq)]
pub enum VaultCoreError {
    VaultDepositOverflow,
    VaultDepositExceedsCapacity,
    VaultFeeCalculationOverflow,
    VaultDataEmpty,
    VaultInvalidProgramOwner,
    VaultInvalidData,
    VaultInvalidPda,
    VaultExpectedWritable,
    VaultSerializationFailed(String),
    VaultNcnAlreadyActive,
    VaultInvalidAdmin,
    ConfigExpectedWritable,
    VaultNcnListExpectedWritable,
    VaultDelegationListExpectedWritable,
    VaultSlasherListExpectedWritable,
    VaultNcnListDataEmpty,
    VaultNcnListInvalidProgramOwner,
    VaultNcnListInvalidData(String),
    VaultNcnListInvalidAccountType,
    VaultNcnListInvalidPda,
    VaultDelegationListDataEmpty,
    VaultDelegationListInvalidProgramOwner,
    VaultDelegationListInvalidData(String),
    VaultDelegationListInvalidAccountType,
    VaultDelegationListInvalidPda,
    VaultSlasherListInvalidPda,
    VaultSlasherListInvalidAccountType,
    VaultSlasherListInvalidData(String),
    VaultSlasherListInvalidProgramOwner,
    VaultSlasherListDataEmpty,
    ConfigInvalidPda,
    ConfigInvalidAccountType,
    ConfigInvalidData(String),
    ConfigInvalidProgramOwner,
    ConfigDataEmpty,
    VaultNcnNotSupported,
    VaultNcnAlreadyInactive,
    VaultDelegationListOperatorAlreadyAdded,
    VaultDelegationListOperatorAlreadyRemoved,
    VaultDelegationListOperatorNotAdded,
    VaultInvalidDelegationAdmin,
    VaultSlasherNotFound,
    VaultSlasherNotActive,
    VaultNcnNotActive,
    VaultOperatorNotFound,
    VaultOperatorNotActive,
    VaultSlashingOverflow,
    VaultSlashingUnderflow,
    VaultNcnTicketEmpty,
    VaultNcnTicketInvalidOwner,
    VaultNcnTicketInvalidAccountType,
    VaultNcnTicketInvalidData(String),
    VaultNcnTicketInvalidPda,
    VaultOperatorTicketEmpty,
    VaultOperatorTicketInvalidOwner,
    VaultOperatorTicketInvalidData(String),
    VaultOperatorTicketInvalidAccountType,
    VaultOperatorTicketInvalidPda,
    VaultSlasherTicketEmpty,
    VaultSlasherTicketInvalidOwner,
    VaultSlasherTicketInvalidData(String),
    VaultSlasherTicketInvalidAccountType,
    VaultSlasherTicketInvalidPda,
    VaultInvalidNcnAdmin,
    VaultInvalidOperatorAdmin,
    VaultNcnTicektNotWritable,
    VaultOperatorTicketNotWritable,
    VaultSlasherTicketNotWritable,
    VaultOperatorTicketAlreadyDeactivated,
    VaultNcnTicketInactive,
    VaultOperatorTicketInactive,
    VaultNcnSlasherTicketInactive,
    VaultInvalidSlasherAdmin,
    VaultNcnOverflow,
    VaultSlasherOverflow,
    VaultOperatorOverflow,
    VaultNcnSlasherOperatorDataEmpty,
    VaultNcnSlasherOperatorInvalidOwner,
    VaultNcnSlasherOperatorInvalidData(String),
    VaultNcnSlasherOperatorInvalidAccountType,
    VaultNcnSlasherOperatorInvalidPda,
    VaultNcnSlasherOperatorNotWritable,
    VaultNcnSlasherOperatorOverflow,
    VaultNcnSlasherOperatorMaxSlashableExceeded,
    VaultStakerWithdrawalTicketEmpty,
    VaultStakerWithdrawalTicketEmptyInvalidOwner,
    VaultStakerWithdrawalTicketEmptyInvalidData(String),
    VaultStakerWithdrawalTicketEmptyInvalidAccountType,
    VaultStakerWithdrawalTicketEmptyInvalidPda,
    VaultStakerWithdrawalTicketInvalidProgramOwner,
    VaultStakerWithdrawalTicketNotWritable,
    VaultOperatorActiveStakeOverflow,
    VaultDelegationListUpdateOverflow,
    VaultDelegationListTotalDelegationOverflow,
    VaultDelegationUnderflow,
    VaultDelegationOverflow,
    VaultSlashingDivisionByZero,
    VaultSlashingIncomplete,
    VaultWithdrawOverflow,
    VaultEmpty,
    VaultInsufficientFunds,
    VaultDelegationListInsufficientSecurity,
    WithdrawAmountExceedsDelegatedFunds,
    ArithmeticOverflow,
    ArithmeticUnderflow,
    UndelegationIncomplete,
    VaultDelegationListAmountWithdrawableUnderflow,
    VaultDelegationListUpdateRequired,
    VaultStakerWithdrawalTicketOverflow,
    VaultStakerWithdrawalTicketNotWithdrawable,
    VaultUndelegationUnderflow,
    VaultDepositUnderflow,
    VaultDelegationListFull,
    VaultAvsTicketEmpty,
    VaultAvsTicketInvalidOwner,
    VaultAvsTicketInvalidData(String),
    VaultAvsTicketInvalidAccountType,
    VaultAvsTicketInvalidPda,
    VaultAvsTicektNotWritable,
    VaultAvsTicketInactive,
    VaultAvsSlasherTicketInactive,
    VaultAvsSlasherOperatorDataEmpty,
    VaultAvsSlasherOperatorInvalidOwner,
    VaultAvsSlasherOperatorInvalidData(String),
    VaultAvsSlasherOperatorInvalidAccountType,
    VaultAvsSlasherOperatorInvalidPda,
    VaultAvsSlasherOperatorNotWritable,
    VaultAvsSlasherOperatorOverflow,
    VaultAvsSlasherOperatorMaxSlashableExceeded,
}

impl From<VaultCoreError> for ProgramError {
    fn from(_value: VaultCoreError) -> (r: ProgramError) {
        ProgramError::Custom(0)
    }
}

impl vstd::std_specs::convert::FromSpecImpl<VaultCoreError> for ProgramError {
    open spec fn obeys_from_spec() -> bool {
        true
    }

    open spec fn from_spec(_value: VaultCoreError) -> ProgramError {
        ProgramError::Custom(0)
    }
}

} // verus!
