//! Errors surfaced by the staking operations.
//!
//! Every precondition of an operation is checked before any state mutation;
//! any failure aborts the whole operation with no partial effect, and the
//! error is surfaced verbatim to the caller.

use vstd::prelude::*;

verus! {

/// The reasons an operation can refuse to run.
#[derive(Clone, Copy, Debug, PartialEq, Eq, Structural)]
pub enum StakeError {
    /// The record slot the operation was asked to create already holds a record.
    AccountAlreadyInitialized,
    /// The supplied derivation bump does not reproduce the expected address.
    BumpMismatch,
    /// The transaction signer is not the owner recorded in the user record.
    IdentityMismatch,
    /// A supplied token account is not the one recorded for this owner or pool.
    LinkMismatch,
    /// A token balance or staked balance is too low for the requested amount.
    InsufficientBalance,
    /// A checked addition on a ledger field would exceed `u64::MAX`.
    ArithmeticOverflow,
    /// A checked subtraction on a ledger field would go below zero.
    ArithmeticUnderflow,
    /// The custody service rejected the transfer or authority change.
    CustodyServiceFailure,
}

impl StakeError {
    /// A short human-readable description of the error.
    pub fn describe(&self) -> String {
        match self {
            StakeError::AccountAlreadyInitialized => "account already initialized".to_string(),
            StakeError::BumpMismatch => "derivation bump mismatch".to_string(),
            StakeError::IdentityMismatch => "signer does not own this record".to_string(),
            StakeError::LinkMismatch => "token account link mismatch".to_string(),
            StakeError::InsufficientBalance => "insufficient balance".to_string(),
            StakeError::ArithmeticOverflow => "arithmetic overflow".to_string(),
            StakeError::ArithmeticUnderflow => "arithmetic underflow".to_string(),
            StakeError::CustodyServiceFailure => "custody service rejected the call".to_string(),
        }
    }
}

} // verus!
