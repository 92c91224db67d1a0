//! The arguments of the transfer operations.

use crate::account::{Account, Subaccount};
use crate::amount::Amount;
use vstd::prelude::*;

verus! {

/// Thirty-two bytes that a sender may attach to a transfer.
pub type Memo = [u8; 32];

/// The position of a record in the history, counted from zero.
pub type TxId = u64;

/// Nanoseconds since the epoch.
pub type Timestamp = u64;

/// One transfer as its sender submits it.
#[derive(Clone, Copy, Debug)]
pub struct TransferArgs {
    pub from_subaccount: Option<Subaccount>,
    pub to: Account,
    pub amount: Amount,
    /// The fee that the sender expects to pay; `None` accepts the configured one.
    pub fee: Option<Amount>,
    pub memo: Option<Memo>,
    /// When the sender made the transfer; `None` takes the ledger's time and
    /// leaves the transfer out of the replay guard.
    pub created_at_time: Option<Timestamp>,
}

impl TransferArgs {
    /// The same transfer with another amount.
    pub fn with_amount(&self, amount: Amount) -> (r: TransferArgs)
        ensures
            r == (TransferArgs { amount, ..*self }),
    {
        TransferArgs {
            from_subaccount: self.from_subaccount,
            to: self.to,
            amount,
            fee: self.fee,
            memo: self.memo,
            created_at_time: self.created_at_time,
        }
    }
}

/// One leg of a batch: who receives, and how much.
#[derive(Clone, Copy, Debug)]
pub struct BatchTransferArgs {
    pub receiver: Account,
    pub amount: Amount,
}

} // verus!
