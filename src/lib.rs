//! A fungible-token ledger with deposit-backed storage accounting.
//!
//! Balances live in the token standard's `FungibleToken`; every entry point
//! checks its preconditions before touching it, so a failed call leaves the
//! ledger exactly as it was.
pub mod balances;
pub mod contract;
pub mod error;
pub mod metadata;
pub mod storage;
pub mod token;
