//! Why a ledger call fails.
use vstd::prelude::*;

verus! {

/// The reasons a call is refused. A refused call changes nothing.
#[derive(Debug, Clone, PartialEq, Eq)]
pub enum LedgerError {
    AlreadyInitialized,
    InvalidMetadata,
    /// The string is not a well-formed account id.
    InvalidAccountId,
    /// The named account has no entry in the ledger.
    AccountNotRegistered(String),
    AccountNotFound,
    NonZeroBalance,
    SelfTransfer,
    ZeroAmount,
    InsufficientBalance,
    BalanceOverflow,
    InsufficientAttachedPayment,
    InsufficientStoragePayment,
    DepositOutOfBounds,
    InsufficientStorageBalance,
}

} // verus!
