//! The transaction history: an append-only sequence of records.

use crate::account::Account;
use crate::amount::Amount;
use crate::types::{BatchTransferArgs, Memo, Timestamp, TxId};
use vstd::prelude::*;

verus! {

/// What a record documents.
#[derive(Clone, Copy, Debug, PartialEq, Eq, Structural)]
pub enum Operation {
    Approve,
    Mint,
    Transfer,
    TransferFrom,
    Burn,
    Auction,
}

/// How the documented operation ended.
#[derive(Clone, Copy, Debug, PartialEq, Eq, Structural)]
pub enum TransactionStatus {
    Succeeded,
    Failed,
}

/// One entry of the history. A record is made when an operation commits, and
/// is never changed afterwards.
#[derive(Clone, Copy, Debug)]
pub struct TxRecord {
    pub caller: Option<Account>,
    pub index: TxId,
    pub from: Account,
    pub to: Account,
    pub amount: Amount,
    pub fee: Amount,
    pub timestamp: Timestamp,
    pub status: TransactionStatus,
    pub operation: Operation,
    pub memo: Option<Memo>,
}

impl TxRecord {
    pub open spec fn spec_transfer(
        index: TxId,
        from: Account,
        to: Account,
        amount: Amount,
        fee: Amount,
        memo: Option<Memo>,
        timestamp: Timestamp,
    ) -> TxRecord {
        TxRecord {
            caller: Some(from),
            index,
            from,
            to,
            amount,
            fee,
            timestamp,
            status: TransactionStatus::Succeeded,
            operation: Operation::Transfer,
            memo,
        }
    }

    pub open spec fn spec_mint(
        index: TxId,
        from: Account,
        to: Account,
        amount: Amount,
        timestamp: Timestamp,
    ) -> TxRecord {
        TxRecord {
            caller: Some(from),
            index,
            from,
            to,
            amount,
            fee: Amount { amount: 0 },
            timestamp,
            status: TransactionStatus::Succeeded,
            operation: Operation::Mint,
            memo: None,
        }
    }

    pub open spec fn spec_burn(
        index: TxId,
        caller: Account,
        from: Account,
        amount: Amount,
        timestamp: Timestamp,
    ) -> TxRecord {
        TxRecord {
            caller: Some(caller),
            index,
            from,
            to: from,
            amount,
            fee: Amount { amount: 0 },
            timestamp,
            status: TransactionStatus::Succeeded,
            operation: Operation::Burn,
            memo: None,
        }
    }

    /// The record of a transfer that its sender made.
    pub fn transfer(
        index: TxId,
        from: Account,
        to: Account,
        amount: Amount,
        fee: Amount,
        memo: Option<Memo>,
        timestamp: Timestamp,
    ) -> (r: TxRecord)
        ensures
            r == TxRecord::spec_transfer(index, from, to, amount, fee, memo, timestamp),
    {
        TxRecord {
            caller: Some(from),
            index,
            from,
            to,
            amount,
            fee,
            timestamp,
            status: TransactionStatus::Succeeded,
            operation: Operation::Transfer,
            memo,
        }
    }

    /// The record of a transfer that `caller` made on behalf of `from`.
    pub fn transfer_from(
        index: TxId,
        from: Account,
        to: Account,
        amount: Amount,
        fee: Amount,
        caller: Account,
        timestamp: Timestamp,
    ) -> (r: TxRecord)
        ensures
            r == (TxRecord {
                caller: Some(caller),
                index,
                from,
                to,
                amount,
                fee,
                timestamp,
                status: TransactionStatus::Succeeded,
                operation: Operation::TransferFrom,
                memo: None,
            }),
    {
        TxRecord {
            caller: Some(caller),
            index,
            from,
            to,
            amount,
            fee,
            timestamp,
            status: TransactionStatus::Succeeded,
            operation: Operation::TransferFrom,
            memo: None,
        }
    }

    /// The record of an approval.
    pub fn approve(
        index: TxId,
        from: Account,
        to: Account,
        amount: Amount,
        fee: Amount,
        timestamp: Timestamp,
    ) -> (r: TxRecord)
        ensures
            r == (TxRecord {
                caller: Some(from),
                index,
                from,
                to,
                amount,
                fee,
                timestamp,
                status: TransactionStatus::Succeeded,
                operation: Operation::Approve,
                memo: None,
            }),
    {
        TxRecord {
            caller: Some(from),
            index,
            from,
            to,
            amount,
            fee,
            timestamp,
            status: TransactionStatus::Succeeded,
            operation: Operation::Approve,
            memo: None,
        }
    }

    /// The record of a mint: `from` made `amount` and gave it to `to`.
    pub fn mint(index: TxId, from: Account, to: Account, amount: Amount, timestamp: Timestamp) -> (r:
        TxRecord)
        ensures
            r == TxRecord::spec_mint(index, from, to, amount, timestamp),
    {
        TxRecord {
            caller: Some(from),
            index,
            from,
            to,
            amount,
            fee: Amount::zero(),
            timestamp,
            status: TransactionStatus::Succeeded,
            operation: Operation::Mint,
            memo: None,
        }
    }

    /// The record of a burn: `caller` destroyed `amount` of what `from` held.
    pub fn burn(
        index: TxId,
        caller: Account,
        from: Account,
        amount: Amount,
        timestamp: Timestamp,
    ) -> (r: TxRecord)
        ensures
            r == TxRecord::spec_burn(index, caller, from, amount, timestamp),
    {
        TxRecord {
            caller: Some(caller),
            index,
            from,
            to: from,
            amount,
            fee: Amount::zero(),
            timestamp,
            status: TransactionStatus::Succeeded,
            operation: Operation::Burn,
            memo: None,
        }
    }

    /// The record of an auction's payout to `to`.
    pub fn auction(index: TxId, to: Account, amount: Amount, timestamp: Timestamp) -> (r: TxRecord)
        ensures
            r == (TxRecord {
                caller: Some(to),
                index,
                from: to,
                to,
                amount,
                fee: Amount { amount: 0 },
                timestamp,
                status: TransactionStatus::Succeeded,
                operation: Operation::Auction,
                memo: None,
            }),
    {
        TxRecord {
            caller: Some(to),
            index,
            from: to,
            to,
            amount,
            fee: Amount::zero(),
            timestamp,
            status: TransactionStatus::Succeeded,
            operation: Operation::Auction,
            memo: None,
        }
    }
}

/// Every record stands at the position that its index names.
pub open spec fn indexed_in_order(history: Seq<TxRecord>) -> bool {
    forall|i: int| 0 <= i < history.len() ==> (#[trigger] history[i]).index == i
}

/// The records of a batch: one transfer per leg, numbered from `first`.
pub open spec fn batch_records(
    first: int,
    from: Account,
    transfers: Seq<BatchTransferArgs>,
    fee: Amount,
    timestamp: Timestamp,
) -> Seq<TxRecord> {
    Seq::new(
        transfers.len(),
        |i: int|
            TxRecord::spec_transfer(
                (first + i) as u64,
                from,
                transfers[i].receiver,
                transfers[i].amount,
                fee,
                None,
                timestamp,
            ),
    )
}

/// The indices of a batch's records.
pub open spec fn batch_ids(first: int, count: nat) -> Seq<TxId> {
    Seq::new(count, |i: int| (first + i) as u64)
}

/// The history.
pub struct Ledger {
    history: Vec<TxRecord>,
}

impl View for Ledger {
    type V = Seq<TxRecord>;

    closed spec fn view(&self) -> Seq<TxRecord> {
        self.history@
    }
}

impl Ledger {
    /// The history's invariant: indices are positions, without a gap.
    pub open spec fn wf(&self) -> bool {
        indexed_in_order(self@)
    }

    pub fn new() -> (l: Ledger)
        ensures
            l.wf(),
            l@ == Seq::<TxRecord>::empty(),
    {
        Ledger { history: Vec::new() }
    }

    /// How many records the history holds.
    pub fn len(&self) -> (n: usize)
        ensures
            n == self@.len(),
    {
        self.history.len()
    }

    /// The record at an index, if the history has got that far.
    pub fn get(&self, index: TxId) -> (r: Option<TxRecord>)
        ensures
            r == (if index < self@.len() {
                Some(self@[index as int])
            } else {
                None
            }),
    {
        if index < self.history.len() as u64 {
            Some(self.history[index as usize])
        } else {
            None
        }
    }

    /// The record at a position.
    pub fn record(&self, position: usize) -> (r: TxRecord)
        requires
            position < self@.len(),
        ensures
            r == self@[position as int],
    {
        self.history[position]
    }

    /// The index that the next record gets.
    pub fn next_id(&self) -> (id: TxId)
        ensures
            id == self@.len(),
    {
        self.history.len() as u64
    }

    fn push(&mut self, record: TxRecord)
        requires
            old(self).wf(),
            record.index == old(self)@.len(),
        ensures
            final(self).wf(),
            final(self)@ == old(self)@.push(record),
    {
        self.history.push(record);
    }

    /// Appends the record of a transfer and returns its index.
    pub fn transfer(
        &mut self,
        from: Account,
        to: Account,
        amount: Amount,
        fee: Amount,
        memo: Option<Memo>,
        created_at: Timestamp,
    ) -> (id: TxId)
        requires
            old(self).wf(),
        ensures
            final(self).wf(),
            id == old(self)@.len(),
            final(self)@ == old(self)@.push(
                TxRecord::spec_transfer(id, from, to, amount, fee, memo, created_at),
            ),
    {
        let id = self.next_id();
        self.push(TxRecord::transfer(id, from, to, amount, fee, memo, created_at));
        id
    }

    /// Appends the record of a mint and returns its index.
    pub fn mint(&mut self, from: Account, to: Account, amount: Amount, timestamp: Timestamp) -> (id:
        TxId)
        requires
            old(self).wf(),
        ensures
            final(self).wf(),
            id == old(self)@.len(),
            final(self)@ == old(self)@.push(TxRecord::spec_mint(id, from, to, amount, timestamp)),
    {
        let id = self.next_id();
        self.push(TxRecord::mint(id, from, to, amount, timestamp));
        id
    }

    /// Appends the record of a burn and returns its index.
    pub fn burn(
        &mut self,
        caller: Account,
        from: Account,
        amount: Amount,
        timestamp: Timestamp,
    ) -> (id: TxId)
        requires
            old(self).wf(),
        ensures
            final(self).wf(),
            id == old(self)@.len(),
            final(self)@ == old(self)@.push(
                TxRecord::spec_burn(id, caller, from, amount, timestamp),
            ),
    {
        let id = self.next_id();
        self.push(TxRecord::burn(id, caller, from, amount, timestamp));
        id
    }

    /// Appends one transfer record per leg of a batch and returns their
    /// indices, in the order of the legs.
    pub fn batch_transfer(
        &mut self,
        from: Account,
        transfers: &Vec<BatchTransferArgs>,
        fee: Amount,
        timestamp: Timestamp,
    ) -> (ids: Vec<TxId>)
        requires
            old(self).wf(),
        ensures
            final(self).wf(),
            final(self)@ == old(self)@ + batch_records(
                old(self)@.len() as int,
                from,
                transfers@,
                fee,
                timestamp,
            ),
            ids@ == batch_ids(old(self)@.len() as int, transfers@.len()),
    {
        let ghost first = self@.len() as int;
        let mut ids: Vec<TxId> = Vec::new();
        let mut i: usize = 0;
        while i < transfers.len()
            invariant
                i <= transfers@.len(),
                self.wf(),
                first == old(self)@.len(),
                self@ == old(self)@ + batch_records(first, from, transfers@.take(i as int), fee, timestamp),
                ids@ == batch_ids(first, i as nat),
            decreases transfers@.len() - i,
        {
            let leg = transfers[i];
            let ghost before = self@;
            let id = self.transfer(from, leg.receiver, leg.amount, fee, None, timestamp);
            ids.push(id);
            proof {
                let done = batch_records(first, from, transfers@.take(i as int), fee, timestamp);
                let next = batch_records(first, from, transfers@.take(i + 1), fee, timestamp);
                assert(next =~= done.push(
                    TxRecord::spec_transfer(id, from, leg.receiver, leg.amount, fee, None, timestamp),
                ));
                assert(self@ =~= old(self)@ + next);
                assert(ids@ =~= batch_ids(first, (i + 1) as nat));
            }
            i += 1;
        }
        proof {
            assert(transfers@.take(transfers@.len() as int) =~= transfers@);
        }
        ids
    }
}

} // verus!
