//! What each operation makes of the ledger, as functions on its model.
//!
//! An operation takes a [`StateView`] to the state after it and its result. A
//! refused operation hands the state back as it was.

use crate::account::{auction_account_id, Account, AccountId, Principal, Subaccount};
use crate::amount::Amount;
use crate::balances::{balance_in, credited, debited};
use crate::claims::pending_in;
use crate::error::TxError;
use crate::fee::FeeRatio;
use crate::ledger::{batch_ids, batch_records, TxRecord};
use crate::state::{StateView, TimeWindow};
use crate::types::{BatchTransferArgs, Timestamp, TransferArgs, TxId};
use vstd::prelude::*;

verus! {

/// The account that a caller sends from.
pub open spec fn sender(caller: Principal, from_subaccount: Option<Subaccount>) -> Account {
    Account { owner: caller, subaccount: from_subaccount }
}

/// The account that holds what a principal holds without a subaccount.
pub open spec fn account_of(owner: Principal) -> Account {
    Account { owner, subaccount: None }
}

/// What a transfer makes of a balance map. The sender pays the amount and the
/// fee, the recipient gets the amount, and the fee goes to the fee recipient
/// and the auction in the shares of the ratio. The four accounts may coincide:
/// each step sees what the one before it wrote.
pub open spec fn transfer_outcome(
    m: Map<AccountId, u128>,
    from: AccountId,
    to: AccountId,
    amount: u128,
    fee: u128,
    fee_to: AccountId,
    ratio: FeeRatio,
) -> Result<Map<AccountId, u128>, TxError> {
    match debited(m, from, (amount + fee) as nat) {
        None => Err(TxError::InsufficientFunds { balance: Amount { amount: balance_in(m, from) } }),
        Some(m1) => match credited(m1, to, amount) {
            None => Err(TxError::AmountOverflow),
            Some(m2) => match credited(m2, fee_to, ratio.owner_share(fee) as u128) {
                None => Err(TxError::AmountOverflow),
                Some(m3) => match credited(
                    m3,
                    auction_account_id(),
                    ratio.auction_share(fee) as u128,
                ) {
                    None => Err(TxError::AmountOverflow),
                    Some(m4) => Ok(m4),
                },
            },
        },
    }
}

/// What a batch of transfers from one sender makes of a balance map: the legs
/// one after the other. A leg that the sender cannot pay fails the batch with
/// the balance that the sender had before the batch.
pub open spec fn batch_outcome(
    m: Map<AccountId, u128>,
    from: AccountId,
    legs: Seq<BatchTransferArgs>,
    fee: u128,
    fee_to: AccountId,
    ratio: FeeRatio,
) -> Result<Map<AccountId, u128>, TxError>
    decreases legs.len(),
{
    if legs.len() == 0 {
        Ok(m)
    } else {
        match batch_outcome(m, from, legs.drop_last(), fee, fee_to, ratio) {
            Err(e) => Err(e),
            Ok(m1) => match transfer_outcome(
                m1,
                from,
                legs.last().receiver@,
                legs.last().amount.amount,
                fee,
                fee_to,
                ratio,
            ) {
                Ok(m2) => Ok(m2),
                Err(TxError::InsufficientFunds { .. }) => Err(
                    TxError::InsufficientFunds { balance: Amount { amount: balance_in(m, from) } },
                ),
                Err(e) => Err(e),
            },
        }
    }
}

/// Whether a record documents the transfer that is being submitted: the same
/// creation time, sender, recipient, memo and amount, and the same fee where
/// the submission names one.
pub open spec fn is_duplicate(
    tx: TxRecord,
    from: AccountId,
    args: TransferArgs,
    created_at: Timestamp,
) -> bool {
    &&& tx.timestamp == created_at
    &&& tx.from@ == from
    &&& tx.to@ == args.to@
    &&& tx.memo == args.memo
    &&& tx.amount == args.amount
    &&& (args.fee matches Some(fee) ==> tx.fee == fee)
}

/// The index of the record that the replay guard finds among the first `upto`
/// records. It looks from the newest record back, stops at the first one that
/// is older than the window, and takes the first duplicate.
pub open spec fn find_duplicate(
    history: Seq<TxRecord>,
    upto: int,
    tx_window: Timestamp,
    now: Timestamp,
    from: AccountId,
    args: TransferArgs,
    created_at: Timestamp,
) -> Option<TxId>
    decreases upto,
{
    if upto <= 0 {
        None
    } else {
        let tx = history[upto - 1];
        if now - tx.timestamp > tx_window {
            None
        } else if is_duplicate(tx, from, args, created_at) {
            Some(tx.index)
        } else {
            find_duplicate(history, upto - 1, tx_window, now, from, args, created_at)
        }
    }
}

/// The time under which a submitted transfer is recorded, or why the replay
/// guard refuses it.
pub open spec fn validated_time(
    history: Seq<TxRecord>,
    window: TimeWindow,
    from: AccountId,
    args: TransferArgs,
    now: Timestamp,
) -> Result<Timestamp, TxError> {
    match args.created_at_time {
        None => Ok(now),
        Some(created_at) => {
            if now - created_at > window.tx_window {
                Err(TxError::TooOld { allowed_window_nanos: window.tx_window })
            } else if created_at - now > window.permitted_drift {
                Err(TxError::CreatedInFuture { ledger_time: now })
            } else {
                match find_duplicate(
                    history,
                    history.len() as int,
                    window.tx_window,
                    now,
                    from,
                    args,
                    created_at,
                ) {
                    Some(index) => Err(TxError::Duplicate { duplicate_of: index }),
                    None => Ok(created_at),
                }
            }
        },
    }
}

/// A transfer: the replay guard, the fee check, the balances, the record.
pub open spec fn transfer_step(
    s: StateView,
    caller: Principal,
    args: TransferArgs,
    now: Timestamp,
) -> (StateView, Result<TxId, TxError>) {
    let from = sender(caller, args.from_subaccount);
    match validated_time(s.history, s.window, from@, args, now) {
        Err(e) => (s, Err(e)),
        Ok(created_at) => {
            if args.fee is Some && args.fee->0 != s.stats.fee {
                (s, Err(TxError::BadFee { expected_fee: s.stats.fee }))
            } else {
                match transfer_outcome(
                    s.balances,
                    from@,
                    args.to@,
                    args.amount.amount,
                    s.stats.fee.amount,
                    s.fee_to(),
                    s.bidding_state.fee_ratio,
                ) {
                    Err(e) => (s, Err(e)),
                    Ok(m) => {
                        let id = s.history.len() as u64;
                        (
                            StateView {
                                balances: m,
                                history: s.history.push(
                                    TxRecord::spec_transfer(
                                        id,
                                        from,
                                        args.to,
                                        args.amount,
                                        s.stats.fee,
                                        args.memo,
                                        created_at,
                                    ),
                                ),
                                ..s
                            },
                            Ok(id),
                        )
                    },
                }
            }
        },
    }
}

/// A transfer whose amount includes the fee: the recipient gets the amount
/// less the fee, which must leave something.
pub open spec fn transfer_include_fee_step(
    s: StateView,
    caller: Principal,
    args: TransferArgs,
    now: Timestamp,
) -> (StateView, Result<TxId, TxError>) {
    if args.amount.amount <= s.stats.fee.amount {
        (s, Err(TxError::AmountTooSmall))
    } else {
        transfer_step(
            s,
            caller,
            TransferArgs {
                amount: Amount { amount: (args.amount.amount - s.stats.fee.amount) as u128 },
                ..args
            },
            now,
        )
    }
}

/// A batch of transfers from one sender: all legs, or none.
pub open spec fn batch_step(
    s: StateView,
    caller: Principal,
    from_subaccount: Option<Subaccount>,
    transfers: Seq<BatchTransferArgs>,
    now: Timestamp,
) -> (StateView, Result<Seq<TxId>, TxError>) {
    let from = sender(caller, from_subaccount);
    match batch_outcome(
        s.balances,
        from@,
        transfers,
        s.stats.fee.amount,
        s.fee_to(),
        s.bidding_state.fee_ratio,
    ) {
        Err(e) => (s, Err(e)),
        Ok(m) => (
            StateView {
                balances: m,
                history: s.history + batch_records(
                    s.history.len() as int,
                    from,
                    transfers,
                    s.stats.fee,
                    now,
                ),
                ..s
            },
            Ok(batch_ids(s.history.len() as int, transfers.len())),
        ),
    }
}

/// A mint: the recipient gets the amount, and nobody pays.
pub open spec fn mint_step(
    s: StateView,
    caller: Principal,
    to: Account,
    amount: Amount,
    now: Timestamp,
) -> (StateView, Result<TxId, TxError>) {
    match credited(s.balances, to@, amount.amount) {
        None => (s, Err(TxError::AmountOverflow)),
        Some(m) => {
            let id = s.history.len() as u64;
            (
                StateView {
                    balances: m,
                    history: s.history.push(
                        TxRecord::spec_mint(id, account_of(caller), to, amount, now),
                    ),
                    ..s
                },
                Ok(id),
            )
        },
    }
}

/// A burn: the account loses the amount, and nobody gets it.
pub open spec fn burn_step(
    s: StateView,
    caller: Principal,
    from: Account,
    amount: Amount,
    now: Timestamp,
) -> (StateView, Result<TxId, TxError>) {
    match debited(s.balances, from@, amount.amount as nat) {
        None => (
            s,
            Err(
                TxError::InsufficientFunds {
                    balance: Amount { amount: balance_in(s.balances, from@) },
                },
            ),
        ),
        Some(m) => {
            let id = s.history.len() as u64;
            (
                StateView {
                    balances: m,
                    history: s.history.push(
                        TxRecord::spec_burn(id, account_of(caller), from, amount, now),
                    ),
                    ..s
                },
                Ok(id),
            )
        },
    }
}

/// A credit to a legacy identifier: the amount waits there to be claimed.
pub open spec fn mint_to_accountid_step(s: StateView, to: Seq<u8>, amount: Amount) -> (
    StateView,
    Result<(), TxError>,
) {
    if pending_in(s.claims, to) + amount.amount > u128::MAX {
        (s, Err(TxError::AmountOverflow))
    } else {
        (
            StateView {
                claims: s.claims.insert(to, (pending_in(s.claims, to) + amount.amount) as u128),
                ..s
            },
            Ok(()),
        )
    }
}

/// A claim by `caller` of what waits under `account`, where `derived` is the
/// legacy identifier of the caller's subaccount. The claim is refused unless
/// the two identifiers are the same and something is listed under them; then
/// what waits is minted to the caller's subaccount and the listing ends.
pub open spec fn claim_step(
    s: StateView,
    caller: Principal,
    account: Seq<u8>,
    subaccount: Option<Subaccount>,
    derived: Seq<u8>,
    now: Timestamp,
) -> (StateView, Result<TxId, TxError>) {
    if account != derived || !s.claims.dom().contains(account) {
        (s, Err(TxError::ClaimNotAllowed))
    } else {
        let amount = Amount { amount: s.claims[account] };
        let (minted, result) = mint_step(s, caller, sender(caller, subaccount), amount, now);
        match result {
            Err(e) => (s, Err(e)),
            Ok(id) => (StateView { claims: s.claims.remove(account), ..minted }, Ok(id)),
        }
    }
}

} // verus!
