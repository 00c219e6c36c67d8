//! The errors that the presale reports.

use vstd::prelude::*;

verus! {

/// Every reason for which the presale refuses an instruction.
#[derive(Clone, Copy, Debug, PartialEq, Eq, Structural)]
pub enum PresaleError {
    NotStarted,
    NotActive,
    Paused,
    SoldOut,
    Ended,
    ScheduleEnded,
    ConfigOpen,
    ConfigFrozen,
    Unauthorized,
    PendingAuthority,
    AssetDisabled,
    UnapprovedMint,
    InvalidTokenAccount,
    InvalidVault,
    InvalidOracle,
    StaleOracle,
    OracleConfidence,
    InvalidOracleStatus,
    OracleStalenessBounds,
    ZeroPayment,
    BelowMinimum,
    AboveMaximum,
    WalletCap,
    ExceedsRemaining,
    SlippageExceeded,
    InsufficientVault,
    MathOverflow,
    ZeroPrice,
    AlreadyFinalized,
    NotClosed,
    Terminal,
    InvalidDestination,
    BitlabProtected,
    WrongTokenProgram,
    AccountMismatch,
    InvalidAuthority,
    VaultOwner,
    MintAuthorityActive,
    LimitInvariant,
    FeeOnTransfer,
    RentExempt,
    EmergencyEngaged,
    EmergencyNotEngaged,
    InvalidSolVault,
    InvalidStartTs,
}

} // verus!
