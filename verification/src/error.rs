//! The failures that an operation can report.

use vstd::prelude::*;

verus! {

/// Why the custody ledger refused a transfer.
#[derive(Clone, Copy, Debug, PartialEq, Eq)]
pub enum LedgerError {
    /// The source holding contains less than the amount asked for.
    InsufficientFunds,
    /// One of the two holdings is unknown to the ledger.
    AccountNotFound,
}

/// Why an operation failed. A failed operation asks nothing of the ledger and
/// changes no record.
#[derive(Clone, Copy, Debug, PartialEq, Eq)]
pub enum MarketError {
    /// A price or a quantity is zero.
    ValidationError,
    /// The caller is not the owner of the record.
    Unauthorized,
    /// The record does not exist.
    NotFound,
    /// An amount of the royalty or fee computation does not fit.
    ArithmeticOverflow,
    /// The custody ledger refused the transfers of the operation.
    CustodyTransferFailed(LedgerError),
}

} // verus!
