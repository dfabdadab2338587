//! Error taxonomy of the reconciliation core.

use vstd::prelude::*;

verus! {

/// An error reported by the ledger service when a transfer is submitted.
#[derive(Debug, Clone, Copy, PartialEq, Eq, Structural)]
pub enum TransferError {
    /// The source account's balance for the symbol was below the amount.
    InsufficientFunds,
    /// The acting identity lacked signing authority for the source account.
    Unauthorized,
    /// The ledger service was unreachable or the transport failed.
    CommunicationError,
}

/// An error of the reconciliation core itself.
#[derive(Debug, Clone, Copy, PartialEq, Eq, Structural)]
pub enum LedgerError {
    /// A referenced identity or symbol alias was never registered.
    UnknownAlias,
    /// A `send` was rejected because the source lacked balance.
    InsufficientFunds,
    /// The acting identity lacked authority over the source account.
    Unauthorized,
    /// Transport or service unreachability.
    CommunicationError,
    /// Subtraction of a larger amount from a smaller one was attempted.
    ArithmeticUnderflow,
    /// The reserve (faucet) account holds nothing of the symbol.
    EmptyReserve,
    /// The post-reconciliation balance read did not match the target.
    ReconciliationVerificationFailed,
}

/// How a `TransferError` surfaces through an operation of this core: each
/// variant maps to the like-named `LedgerError` variant, unchanged.
pub open spec fn lift_transfer_error(e: TransferError) -> LedgerError {
    match e {
        TransferError::InsufficientFunds => LedgerError::InsufficientFunds,
        TransferError::Unauthorized => LedgerError::Unauthorized,
        TransferError::CommunicationError => LedgerError::CommunicationError,
    }
}

} // verus!
