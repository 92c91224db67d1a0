//! What holds of the ledger whatever is done with it.
//!
//! The operations are the functions of [`crate::model`]; the laws here are
//! stated over them, and the executable operations are proved to compute them.

use crate::account::{
    auction_account_id, subaccount_bytes, Account, AccountId, Principal, Subaccount,
};
use crate::amount::Amount;
use crate::balances::{credited, debited, is_balance_map, lemma_credited, lemma_debited, total};
use crate::claims::legacy_account_id;
use crate::error::TxError;
use crate::fee::FeeRatio;
use crate::ledger::{batch_records, Operation, TxRecord};
use crate::model::{
    batch_outcome, batch_step, burn_step, claim_step, find_duplicate, is_duplicate, mint_step,
    mint_to_accountid_step, sender, transfer_include_fee_step, transfer_outcome, transfer_step,
};
use crate::state::{burned, minted, StateView};
use crate::types::{BatchTransferArgs, Timestamp, TransferArgs};
use vstd::prelude::*;

verus! {

/// A record that is neither a mint nor a burn leaves both sums as they were;
/// a mint or a burn adds its amount to its sum.
pub proof fn lemma_history_push(history: Seq<TxRecord>, record: TxRecord)
    ensures
        minted(history.push(record)) == minted(history) + (if record.operation
            == Operation::Mint {
            record.amount.amount as nat
        } else {
            0
        }),
        burned(history.push(record)) == burned(history) + (if record.operation
            == Operation::Burn {
            record.amount.amount as nat
        } else {
            0
        }),
{
    assert(history.push(record).drop_last() =~= history);
}

/// A transfer keeps a balance map one, and keeps its total.
pub proof fn lemma_transfer_outcome(
    m: Map<AccountId, u128>,
    from: AccountId,
    to: AccountId,
    amount: u128,
    fee: u128,
    fee_to: AccountId,
    ratio: FeeRatio,
)
    requires
        is_balance_map(m),
        transfer_outcome(m, from, to, amount, fee, fee_to, ratio) is Ok,
    ensures
        is_balance_map(transfer_outcome(m, from, to, amount, fee, fee_to, ratio)->Ok_0),
        total(transfer_outcome(m, from, to, amount, fee, fee_to, ratio)->Ok_0) == total(m),
{
    ratio.lemma_shares(fee);
    let m1 = debited(m, from, (amount + fee) as nat).unwrap();
    lemma_debited(m, from, (amount + fee) as nat);
    let m2 = credited(m1, to, amount).unwrap();
    lemma_credited(m1, to, amount);
    let m3 = credited(m2, fee_to, ratio.owner_share(fee) as u128).unwrap();
    lemma_credited(m2, fee_to, ratio.owner_share(fee) as u128);
    lemma_credited(m3, auction_account_id(), ratio.auction_share(fee) as u128);
}

/// Records that are all transfers leave what was minted and what was burned
/// as they were.
pub proof fn lemma_history_append_transfers(history: Seq<TxRecord>, records: Seq<TxRecord>)
    requires
        forall|i: int| 0 <= i < records.len() ==> (#[trigger] records[i]).operation
            == Operation::Transfer,
    ensures
        minted(history + records) == minted(history),
        burned(history + records) == burned(history),
    decreases records.len(),
{
    if records.len() == 0 {
        assert(history + records =~= history);
    } else {
        lemma_history_append_transfers(history, records.drop_last());
        assert((history + records).drop_last() =~= history + records.drop_last());
    }
}

/// A batch keeps a balance map one, and keeps its total.
pub proof fn lemma_batch_outcome(
    m: Map<AccountId, u128>,
    from: AccountId,
    legs: Seq<BatchTransferArgs>,
    fee: u128,
    fee_to: AccountId,
    ratio: FeeRatio,
)
    requires
        is_balance_map(m),
        batch_outcome(m, from, legs, fee, fee_to, ratio) is Ok,
    ensures
        is_balance_map(batch_outcome(m, from, legs, fee, fee_to, ratio)->Ok_0),
        total(batch_outcome(m, from, legs, fee, fee_to, ratio)->Ok_0) == total(m),
    decreases legs.len(),
{
    if legs.len() > 0 {
        lemma_batch_outcome(m, from, legs.drop_last(), fee, fee_to, ratio);
        let m1 = batch_outcome(m, from, legs.drop_last(), fee, fee_to, ratio)->Ok_0;
        lemma_transfer_outcome(
            m1,
            from,
            legs.last().receiver@,
            legs.last().amount.amount,
            fee,
            fee_to,
            ratio,
        );
    }
}

/// A batch fails as its first failing leg does, whatever legs follow it.
pub proof fn lemma_batch_failure_is_final(
    m: Map<AccountId, u128>,
    from: AccountId,
    legs: Seq<BatchTransferArgs>,
    failed: int,
    fee: u128,
    fee_to: AccountId,
    ratio: FeeRatio,
)
    requires
        0 <= failed <= legs.len(),
        batch_outcome(m, from, legs.take(failed), fee, fee_to, ratio) is Err,
    ensures
        batch_outcome(m, from, legs, fee, fee_to, ratio) == batch_outcome(
            m,
            from,
            legs.take(failed),
            fee,
            fee_to,
            ratio,
        ),
    decreases legs.len() - failed,
{
    if failed == legs.len() {
        assert(legs.take(failed) =~= legs);
    } else {
        assert(legs.take(failed + 1).drop_last() =~= legs.take(failed));
        lemma_batch_failure_is_final(m, from, legs, failed + 1, fee, fee_to, ratio);
    }
}

/// A transfer leaves the balances a balance map and the ledger conserved,
/// and a refused one leaves the ledger as it was.
pub proof fn lemma_transfer_step(s: StateView, caller: Principal, args: TransferArgs, now: Timestamp)
    requires
        s.wf(),
    ensures
        transfer_step(s, caller, args, now).0.wf(),
        s.conserved() ==> transfer_step(s, caller, args, now).0.conserved(),
        transfer_step(s, caller, args, now).1 is Err ==> transfer_step(s, caller, args, now).0 == s,
        total(transfer_step(s, caller, args, now).0.balances) == total(s.balances),
{
    let (after, result) = transfer_step(s, caller, args, now);
    if result is Ok {
        let from = sender(caller, args.from_subaccount);
        lemma_transfer_outcome(
            s.balances,
            from@,
            args.to@,
            args.amount.amount,
            s.stats.fee.amount,
            s.fee_to(),
            s.bidding_state.fee_ratio,
        );
        lemma_history_push(s.history, after.history.last());
        assert(after.history.drop_last() =~= s.history);
    }
}

/// A batch leaves the balances a balance map and the ledger conserved.
pub proof fn lemma_batch_step(
    s: StateView,
    caller: Principal,
    from_subaccount: Option<Subaccount>,
    transfers: Seq<BatchTransferArgs>,
    now: Timestamp,
)
    requires
        s.wf(),
    ensures
        batch_step(s, caller, from_subaccount, transfers, now).0.wf(),
        s.conserved() ==> batch_step(s, caller, from_subaccount, transfers, now).0.conserved(),
        total(batch_step(s, caller, from_subaccount, transfers, now).0.balances) == total(
            s.balances,
        ),
{
    let (after, result) = batch_step(s, caller, from_subaccount, transfers, now);
    if result is Ok {
        let from = sender(caller, from_subaccount);
        lemma_batch_outcome(
            s.balances,
            from@,
            transfers,
            s.stats.fee.amount,
            s.fee_to(),
            s.bidding_state.fee_ratio,
        );
        lemma_history_append_transfers(
            s.history,
            batch_records(s.history.len() as int, from, transfers, s.stats.fee, now),
        );
    }
}

/// A mint adds its amount to the total, and leaves the ledger conserved.
pub proof fn lemma_mint_step(
    s: StateView,
    caller: Principal,
    to: Account,
    amount: Amount,
    now: Timestamp,
)
    requires
        s.wf(),
    ensures
        mint_step(s, caller, to, amount, now).0.wf(),
        s.conserved() ==> mint_step(s, caller, to, amount, now).0.conserved(),
        mint_step(s, caller, to, amount, now).1 is Ok ==> total(
            mint_step(s, caller, to, amount, now).0.balances,
        ) == total(s.balances) + amount.amount,
{
    let (after, result) = mint_step(s, caller, to, amount, now);
    if result is Ok {
        lemma_credited(s.balances, to@, amount.amount);
        lemma_history_push(s.history, after.history.last());
        assert(after.history.drop_last() =~= s.history);
    }
}

/// A burn takes its amount from the total, and leaves the ledger conserved.
pub proof fn lemma_burn_step(
    s: StateView,
    caller: Principal,
    from: Account,
    amount: Amount,
    now: Timestamp,
)
    requires
        s.wf(),
    ensures
        burn_step(s, caller, from, amount, now).0.wf(),
        s.conserved() ==> burn_step(s, caller, from, amount, now).0.conserved(),
        burn_step(s, caller, from, amount, now).1 is Ok ==> total(
            burn_step(s, caller, from, amount, now).0.balances,
        ) == total(s.balances) - amount.amount,
{
    let (after, result) = burn_step(s, caller, from, amount, now);
    if result is Ok {
        lemma_debited(s.balances, from@, amount.amount as nat);
        lemma_history_push(s.history, after.history.last());
        assert(after.history.drop_last() =~= s.history);
    }
}

/// A claim leaves the balances a balance map and the ledger conserved.
pub proof fn lemma_claim_step(
    s: StateView,
    caller: Principal,
    account: Seq<u8>,
    subaccount: Option<Subaccount>,
    derived: Seq<u8>,
    now: Timestamp,
)
    requires
        s.wf(),
    ensures
        claim_step(s, caller, account, subaccount, derived, now).0.wf(),
        s.conserved() ==> claim_step(s, caller, account, subaccount, derived, now).0.conserved(),
{
    if account == derived && s.claims.dom().contains(account) {
        lemma_mint_step(
            s,
            caller,
            sender(caller, subaccount),
            Amount { amount: s.claims[account] },
            now,
        );
    }
}

/// One call of the ledger, with all that it is given.
pub enum Call {
    Transfer { caller: Principal, args: TransferArgs, now: Timestamp },
    TransferIncludeFee { caller: Principal, args: TransferArgs, now: Timestamp },
    BatchTransfer {
        caller: Principal,
        from_subaccount: Option<Subaccount>,
        transfers: Seq<BatchTransferArgs>,
        now: Timestamp,
    },
    Mint { caller: Principal, to: Account, amount: Amount, now: Timestamp },
    Burn { caller: Principal, from: Account, amount: Amount, now: Timestamp },
    MintToAccountId { account: Seq<u8>, amount: Amount },
    Claim {
        caller: Principal,
        account: Seq<u8>,
        subaccount: Option<Subaccount>,
        now: Timestamp,
    },
}

/// The ledger after one call.
pub open spec fn after(s: StateView, call: Call) -> StateView {
    match call {
        Call::Transfer { caller, args, now } => transfer_step(s, caller, args, now).0,
        Call::TransferIncludeFee { caller, args, now } => transfer_include_fee_step(
            s,
            caller,
            args,
            now,
        ).0,
        Call::BatchTransfer { caller, from_subaccount, transfers, now } => batch_step(
            s,
            caller,
            from_subaccount,
            transfers,
            now,
        ).0,
        Call::Mint { caller, to, amount, now } => mint_step(s, caller, to, amount, now).0,
        Call::Burn { caller, from, amount, now } => burn_step(s, caller, from, amount, now).0,
        Call::MintToAccountId { account, amount } => mint_to_accountid_step(s, account, amount).0,
        Call::Claim { caller, account, subaccount, now } => claim_step(
            s,
            caller,
            account,
            subaccount,
            legacy_account_id(caller@, subaccount_bytes(subaccount)),
            now,
        ).0,
    }
}

/// The ledger after a sequence of calls, the first call first.
pub open spec fn after_all(s: StateView, calls: Seq<Call>) -> StateView
    decreases calls.len(),
{
    if calls.len() == 0 {
        s
    } else {
        after(after_all(s, calls.drop_last()), calls.last())
    }
}

/// One call, whatever it is and however it ends, leaves no listed balance at
/// zero and leaves the balances adding up to what was minted less what was
/// burned.
pub proof fn law_call_conserves(s: StateView, call: Call)
    requires
        s.wf(),
        s.conserved(),
    ensures
        after(s, call).wf(),
        after(s, call).conserved(),
{
    match call {
        Call::Transfer { caller, args, now } => {
            lemma_transfer_step(s, caller, args, now);
        },
        Call::TransferIncludeFee { caller, args, now } => {
            if args.amount.amount > s.stats.fee.amount {
                lemma_transfer_step(
                    s,
                    caller,
                    TransferArgs {
                        amount: Amount {
                            amount: (args.amount.amount - s.stats.fee.amount) as u128,
                        },
                        ..args
                    },
                    now,
                );
            }
        },
        Call::BatchTransfer { caller, from_subaccount, transfers, now } => {
            lemma_batch_step(s, caller, from_subaccount, transfers, now);
        },
        Call::Mint { caller, to, amount, now } => {
            lemma_mint_step(s, caller, to, amount, now);
        },
        Call::Burn { caller, from, amount, now } => {
            lemma_burn_step(s, caller, from, amount, now);
        },
        Call::MintToAccountId { account, amount } => {},
        Call::Claim { caller, account, subaccount, now } => {
            lemma_claim_step(
                s,
                caller,
                account,
                subaccount,
                legacy_account_id(caller@, subaccount_bytes(subaccount)),
                now,
            );
        },
    }
}

/// Conservation: after any sequence of calls on a conserved ledger, the
/// balances add up to what was minted less what was burned, and no listed
/// balance is zero.
pub proof fn law_conservation(s: StateView, calls: Seq<Call>)
    requires
        s.wf(),
        s.conserved(),
    ensures
        after_all(s, calls).wf(),
        after_all(s, calls).conserved(),
        total(after_all(s, calls).balances) + burned(after_all(s, calls).history) == minted(
            after_all(s, calls).history,
        ),
    decreases calls.len(),
{
    if calls.len() > 0 {
        law_conservation(s, calls.drop_last());
        law_call_conserves(after_all(s, calls.drop_last()), calls.last());
    }
}

/// Whether the ledger refuses a call.
pub open spec fn refused(s: StateView, call: Call) -> bool {
    match call {
        Call::Transfer { caller, args, now } => transfer_step(s, caller, args, now).1 is Err,
        Call::TransferIncludeFee { caller, args, now } => transfer_include_fee_step(
            s,
            caller,
            args,
            now,
        ).1 is Err,
        Call::BatchTransfer { caller, from_subaccount, transfers, now } => batch_step(
            s,
            caller,
            from_subaccount,
            transfers,
            now,
        ).1 is Err,
        Call::Mint { caller, to, amount, now } => mint_step(s, caller, to, amount, now).1 is Err,
        Call::Burn { caller, from, amount, now } => burn_step(s, caller, from, amount, now).1 is Err,
        Call::MintToAccountId { account, amount } => mint_to_accountid_step(
            s,
            account,
            amount,
        ).1 is Err,
        Call::Claim { caller, account, subaccount, now } => claim_step(
            s,
            caller,
            account,
            subaccount,
            legacy_account_id(caller@, subaccount_bytes(subaccount)),
            now,
        ).1 is Err,
    }
}

/// All or nothing: a call that the ledger refuses leaves the ledger exactly
/// as it was.
pub proof fn law_refused_call_changes_nothing(s: StateView, call: Call)
    requires
        refused(s, call),
    ensures
        after(s, call) == s,
{
}

/// The replay guard: a transfer that went through with a creation time is
/// refused when it is submitted again, unchanged, while that time is still
/// within the window. The second submission changes nothing and names the
/// record of the first.
pub proof fn law_resubmission_is_refused(
    s: StateView,
    caller: Principal,
    args: TransferArgs,
    first: Timestamp,
    second: Timestamp,
)
    requires
        args.created_at_time is Some,
        transfer_step(s, caller, args, first).1 is Ok,
        first <= second,
        second - args.created_at_time->0 <= s.window.tx_window,
    ensures
        transfer_step(transfer_step(s, caller, args, first).0, caller, args, second) == (
            transfer_step(s, caller, args, first).0,
            Err::<u64, TxError>(
                TxError::Duplicate { duplicate_of: transfer_step(s, caller, args, first).1->Ok_0 },
            ),
        ),
{
    let (s1, r1) = transfer_step(s, caller, args, first);
    let from = sender(caller, args.from_subaccount);
    let created_at = args.created_at_time->0;
    let record = s1.history.last();
    assert(s1.history[s1.history.len() - 1] == record);
    assert(is_duplicate(record, from@, args, created_at));
    assert(find_duplicate(
        s1.history,
        s1.history.len() as int,
        s1.window.tx_window,
        second,
        from@,
        args,
        created_at,
    ) == Some(record.index));
}

/// A batch that fails changes nothing.
pub proof fn law_batch_is_atomic(
    s: StateView,
    caller: Principal,
    from_subaccount: Option<Subaccount>,
    transfers: Seq<BatchTransferArgs>,
    now: Timestamp,
)
    ensures
        batch_step(s, caller, from_subaccount, transfers, now).1 is Err ==> batch_step(
            s,
            caller,
            from_subaccount,
            transfers,
            now,
        ).0 == s,
{
}

/// The fee recipient's share and the auction's share of a fee add up to the
/// fee, whatever the ratio: nothing is lost to rounding, and nothing is paid
/// twice.
pub proof fn law_fee_split_is_exact(ratio: FeeRatio, fee: u128)
    ensures
        ratio.owner_share(fee) + ratio.auction_share(fee) == fee,
{
    ratio.lemma_shares(fee);
}

} // verus!
