//! The business-rule failures of the ledger.

use crate::amount::Amount;
use vstd::prelude::*;

verus! {

/// Why an operation was refused. A refused operation has changed nothing.
#[derive(Clone, Copy, Debug, PartialEq, Eq, Structural)]
pub enum TxError {
    /// The caller named a fee that is not the configured one.
    BadFee { expected_fee: Amount },
    /// The debited account holds less than the debit.
    InsufficientFunds { balance: Amount },
    /// A credit would exceed 128 bits.
    AmountOverflow,
    /// A fee-inclusive amount does not exceed the fee.
    AmountTooSmall,
    /// The submission's creation time lies further back than the window.
    TooOld { allowed_window_nanos: u64 },
    /// The submission's creation time lies further ahead than the drift.
    CreatedInFuture { ledger_time: u64 },
    /// The same transfer is already in the history.
    Duplicate { duplicate_of: u64 },
    /// The claimant does not own the claim, or nothing is pending under it.
    ClaimNotAllowed,
}

} // verus!
