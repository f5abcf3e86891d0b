//! Error types of the vault library.
//!
//! `VaultError` lists the ways a vault operation can be refused. `ProgramError`
//! holds, as a plain value, the program-level error that an instruction reports;
//! every `VaultError` converts into `ProgramError::Custom` with the error's code.
use vstd::prelude::*;

verus! {

/// The errors a vault operation can return.
#[derive(Debug, Clone, Copy, PartialEq, Eq, Structural)]
pub enum VaultError {
    DivisionByZero,
    ArithmeticOverflow,
    ArithmeticUnderflow,
    SlippageError,
    VaultOverflow,
    VaultUnderflow,
    NcnOverflow,
    OperatorOverflow,
    SlasherOverflow,
    VaultAdminInvalid,
    VaultCapacityAdminInvalid,
    VaultDelegationAdminInvalid,
    VaultDelegateAssetAdminInvalid,
    VaultFeeAdminInvalid,
    VaultMintBurnAdminInvalid,
    VaultNcnAdminInvalid,
    VaultOperatorAdminInvalid,
    VaultSlasherAdminInvalid,
    VaultBurnZero,
    VaultMintZero,
    VaultCapacityExceeded,
    VaultCooldownZero,
    VaultDelegationZero,
    VaultEnqueueWithdrawalAmountZero,
    VaultFeeBumpTooLarge,
    VaultFeeCapExceeded,
    VaultFeeChangeTooSoon,
    VaultInitialAmountFailed,
    VaultInsufficientFunds,
    VaultIsPaused,
    VaultRewardFeeDeltaTooLarge,
    VaultRewardFeeIsZero,
    VaultSecurityOverflow,
    VaultSecurityUnderflow,
    VaultSlashIncomplete,
    VaultSlashUnderflow,
    VaultNcnTicketFailedCooldown,
    VaultNcnSlasherTicketFailedCooldown,
    VaultStakerWithdrawalTicketInvalidStaker,
    VaultStakerWithdrawalTicketNotWithdrawable,
    VaultUpdateIncorrectIndex,
    VaultUpdateNeeded,
    VaultUpdateStateNotFinishedUpdating,
    VaultNotFrozen,
    InvalidWithdrawalAllocationMethod,
    VaultOperatorDelegationIsUpdated,
}

/// The numeric code of each `VaultError`, in declaration order from 1000.
pub open spec fn vault_error_code(e: VaultError) -> u32 {
    match e {
        VaultError::DivisionByZero => 1000,
        VaultError::ArithmeticOverflow => 1001,
        VaultError::ArithmeticUnderflow => 1002,
        VaultError::SlippageError => 1003,
        VaultError::VaultOverflow => 1004,
        VaultError::VaultUnderflow => 1005,
        VaultError::NcnOverflow => 1006,
        VaultError::OperatorOverflow => 1007,
        VaultError::SlasherOverflow => 1008,
        VaultError::VaultAdminInvalid => 1009,
        VaultError::VaultCapacityAdminInvalid => 1010,
        VaultError::VaultDelegationAdminInvalid => 1011,
        VaultError::VaultDelegateAssetAdminInvalid => 1012,
        VaultError::VaultFeeAdminInvalid => 1013,
        VaultError::VaultMintBurnAdminInvalid => 1014,
        VaultError::VaultNcnAdminInvalid => 1015,
        VaultError::VaultOperatorAdminInvalid => 1016,
        VaultError::VaultSlasherAdminInvalid => 1017,
        VaultError::VaultBurnZero => 1018,
        VaultError::VaultMintZero => 1019,
        VaultError::VaultCapacityExceeded => 1020,
        VaultError::VaultCooldownZero => 1021,
        VaultError::VaultDelegationZero => 1022,
        VaultError::VaultEnqueueWithdrawalAmountZero => 1023,
        VaultError::VaultFeeBumpTooLarge => 1024,
        VaultError::VaultFeeCapExceeded => 1025,
        VaultError::VaultFeeChangeTooSoon => 1026,
        VaultError::VaultInitialAmountFailed => 1027,
        VaultError::VaultInsufficientFunds => 1028,
        VaultError::VaultIsPaused => 1029,
        VaultError::VaultRewardFeeDeltaTooLarge => 1030,
        VaultError::VaultRewardFeeIsZero => 1031,
        VaultError::VaultSecurityOverflow => 1032,
        VaultError::VaultSecurityUnderflow => 1033,
        VaultError::VaultSlashIncomplete => 1034,
        VaultError::VaultSlashUnderflow => 1035,
        VaultError::VaultNcnTicketFailedCooldown => 1036,
        VaultError::VaultNcnSlasherTicketFailedCooldown => 1037,
        VaultError::VaultStakerWithdrawalTicketInvalidStaker => 1038,
        VaultError::VaultStakerWithdrawalTicketNotWithdrawable => 1039,
        VaultError::VaultUpdateIncorrectIndex => 1040,
        VaultError::VaultUpdateNeeded => 1041,
        VaultError::VaultUpdateStateNotFinishedUpdating => 1042,
        VaultError::VaultNotFrozen => 1043,
        VaultError::InvalidWithdrawalAllocationMethod => 1044,
        VaultError::VaultOperatorDelegationIsUpdated => 1045,
    }
}

impl VaultError {
    /// The numeric code reported for this error.
    pub fn code(&self) -> (r: u32)
        ensures
            r == vault_error_code(*self),
    {
        match self {
            VaultError::DivisionByZero => 1000,
            VaultError::ArithmeticOverflow => 1001,
            VaultError::ArithmeticUnderflow => 1002,
            VaultError::SlippageError => 1003,
            VaultError::VaultOverflow => 1004,
            VaultError::VaultUnderflow => 1005,
            VaultError::NcnOverflow => 1006,
            VaultError::OperatorOverflow => 1007,
            VaultError::SlasherOverflow => 1008,
            VaultError::VaultAdminInvalid => 1009,
            VaultError::VaultCapacityAdminInvalid => 1010,
            VaultError::VaultDelegationAdminInvalid => 1011,
            VaultError::VaultDelegateAssetAdminInvalid => 1012,
            VaultError::VaultFeeAdminInvalid => 1013,
            VaultError::VaultMintBurnAdminInvalid => 1014,
            VaultError::VaultNcnAdminInvalid => 1015,
            VaultError::VaultOperatorAdminInvalid => 1016,
            VaultError::VaultSlasherAdminInvalid => 1017,
            VaultError::VaultBurnZero => 1018,
            VaultError::VaultMintZero => 1019,
            VaultError::VaultCapacityExceeded => 1020,
            VaultError::VaultCooldownZero => 1021,
            VaultError::VaultDelegationZero => 1022,
            VaultError::VaultEnqueueWithdrawalAmountZero => 1023,
            VaultError::VaultFeeBumpTooLarge => 1024,
            VaultError::VaultFeeCapExceeded => 1025,
            VaultError::VaultFeeChangeTooSoon => 1026,
            VaultError::VaultInitialAmountFailed => 1027,
            VaultError::VaultInsufficientFunds => 1028,
            VaultError::VaultIsPaused => 1029,
            VaultError::VaultRewardFeeDeltaTooLarge => 1030,
            VaultError::VaultRewardFeeIsZero => 1031,
            VaultError::VaultSecurityOverflow => 1032,
            VaultError::VaultSecurityUnderflow => 1033,
            VaultError::VaultSlashIncomplete => 1034,
            VaultError::VaultSlashUnderflow => 1035,
            VaultError::VaultNcnTicketFailedCooldown => 1036,
            VaultError::VaultNcnSlasherTicketFailedCooldown => 1037,
            VaultError::VaultStakerWithdrawalTicketInvalidStaker => 1038,
            VaultError::VaultStakerWithdrawalTicketNotWithdrawable => 1039,
            VaultError::VaultUpdateIncorrectIndex => 1040,
            VaultError::VaultUpdateNeeded => 1041,
            VaultError::VaultUpdateStateNotFinishedUpdating => 1042,
            VaultError::VaultNotFrozen => 1043,
            VaultError::InvalidWithdrawalAllocationMethod => 1044,
            VaultError::VaultOperatorDelegationIsUpdated => 1045,
        }
    }
}

/// The program-level error an instruction reports.
#[derive(Debug, Clone, Copy, PartialEq, Eq, Structural)]
pub enum ProgramError {
    Custom(u32),
    InvalidArgument,
    InvalidInstructionData,
    InvalidAccountData,
    AccountDataTooSmall,
    InsufficientFunds,
    IncorrectProgramId,
    MissingRequiredSignature,
    AccountAlreadyInitialized,
    UninitializedAccount,
    NotEnoughAccountKeys,
    InvalidAccountOwner,
    IllegalOwner,
    ArithmeticOverflow,
    InvalidSeeds,
}

/// The program error that a vault error becomes.
pub open spec fn program_error_of(e: VaultError) -> ProgramError {
    ProgramError::Custom(vault_error_code(e))
}

impl From<VaultError> for ProgramError {
    fn from(e: VaultError) -> (r: ProgramError) {
        ProgramError::Custom(e.code())
    }
}

impl vstd::std_specs::convert::FromSpecImpl<VaultError> for ProgramError {
    open spec fn obeys_from_spec() -> bool {
        true
    }

    open spec fn from_spec(e: VaultError) -> ProgramError {
        program_error_of(e)
    }
}

} // verus!
