//! The operations of the ledger: transfers, batches, mints, burns and claims.
//!
//! Each operation reads what it needs, stages the balances that it is going to
//! change, and checks every step on the staged values. Only when nothing can
//! fail any more does it write: the balances first, then the history.

use crate::account::{
    auction_account, auction_account_id, bytes32_eq, effective_subaccount, subaccount_bytes,
    Account, AccountId, Principal, Subaccount,
};
use crate::amount::Amount;
use crate::balances::{
    balance_in, lemma_credited, lemma_debited, lemma_overlay_insert, lemma_overlay_neutral,
    overlay, total, Balances,
};
use crate::claims::{derive_account_id, legacy_account_id, AccountIdentifier};
use crate::error::TxError;
use crate::fee::FeeRatio;
use crate::laws::{
    lemma_batch_failure_is_final, lemma_batch_outcome, lemma_history_append_transfers,
    lemma_history_push, lemma_transfer_outcome,
};
use crate::ledger::{batch_records, TxRecord};
use crate::model::{
    account_of, batch_outcome, batch_step, burn_step, claim_step, find_duplicate, is_duplicate,
    mint_step, mint_to_accountid_step, sender, transfer_include_fee_step, transfer_outcome,
    transfer_step, validated_time,
};
use crate::state::CanisterState;
use crate::table::{Keyed, Table};
use crate::types::{BatchTransferArgs, Memo, Timestamp, TransferArgs, TxId};
use vstd::prelude::*;

verus! {

/// Every staged amount is what its account holds in `base`.
pub open spec fn agrees(updates: Map<AccountId, u128>, base: Map<AccountId, u128>) -> bool {
    forall|k: AccountId| #[trigger] updates.dom().contains(k) ==> updates[k] == balance_in(base, k)
}

/// Stages an account: lists under it what it holds in the store.
fn stage(updates: &mut Table<Account>, balances: &Balances, account: Account)
    requires
        old(updates).wf(),
        balances.wf(),
        agrees(old(updates)@, balances@),
    ensures
        final(updates).wf(),
        agrees(final(updates)@, balances@),
        final(updates)@.dom() == old(updates)@.dom().insert(account@),
{
    let balance = balances.balance_of(account);
    updates.insert(account, balance);
    assert(updates@.dom() =~= old(updates)@.dom().insert(account@));
}

/// What a staged account holds.
fn staged_balance(updates: &Table<Account>, account: Account) -> (r: Amount)
    requires
        updates.wf(),
        updates@.dom().contains(account@),
    ensures
        r.amount == updates@[account@],
{
    match updates.get(&account) {
        Some(amount) => amount,
        None => Amount::zero(),
    }
}

/// Carries out one transfer on staged balances. The four accounts must have
/// been staged. Where the transfer fails, the staged balances may hold a part
/// of it, and are to be thrown away.
fn transfer_staged(
    updates: &mut Table<Account>,
    Ghost(base): Ghost<Map<AccountId, u128>>,
    from: Account,
    to: Account,
    amount: Amount,
    fee: Amount,
    fee_to: Account,
    ratio: FeeRatio,
) -> (r: Result<(), TxError>)
    requires
        old(updates).wf(),
        old(updates)@.dom().contains(from@),
        old(updates)@.dom().contains(to@),
        old(updates)@.dom().contains(fee_to@),
        old(updates)@.dom().contains(auction_account_id()),
    ensures
        final(updates).wf(),
        final(updates)@.dom() == old(updates)@.dom(),
        match transfer_outcome(
            overlay(base, old(updates)@),
            from@,
            to@,
            amount.amount,
            fee.amount,
            fee_to@,
            ratio,
        ) {
            Ok(m) => r is Ok && overlay(base, final(updates)@) == m,
            Err(e) => r == Err::<(), TxError>(e),
        },
{
    let from_balance = staged_balance(updates, from);
    let amount_with_fee = match amount.checked_add(fee) {
        Some(sum) => sum,
        None => {
            return Err(TxError::InsufficientFunds { balance: from_balance });
        },
    };
    let updated_from_balance = match from_balance.checked_sub(amount_with_fee) {
        Some(rest) => rest,
        None => {
            return Err(TxError::InsufficientFunds { balance: from_balance });
        },
    };
    proof {
        lemma_overlay_insert(base, updates@, from@, updated_from_balance.amount);
    }
    updates.insert(from, updated_from_balance);
    assert(updates@.dom() =~= old(updates)@.dom());

    let to_balance = staged_balance(updates, to);
    let updated_to_balance = match to_balance.checked_add(amount) {
        Some(sum) => sum,
        None => {
            return Err(TxError::AmountOverflow);
        },
    };
    proof {
        lemma_overlay_insert(base, updates@, to@, updated_to_balance.amount);
    }
    updates.insert(to, updated_to_balance);
    assert(updates@.dom() =~= old(updates)@.dom());

    let (owner_fee, auction_fee) = ratio.get_value(fee);

    let fee_to_balance = staged_balance(updates, fee_to);
    let updated_fee_to_balance = match fee_to_balance.checked_add(owner_fee) {
        Some(sum) => sum,
        None => {
            return Err(TxError::AmountOverflow);
        },
    };
    proof {
        lemma_overlay_insert(base, updates@, fee_to@, updated_fee_to_balance.amount);
    }
    updates.insert(fee_to, updated_fee_to_balance);
    assert(updates@.dom() =~= old(updates)@.dom());

    let auction = auction_account();
    let auction_balance = staged_balance(updates, auction);
    let updated_auction_balance = match auction_balance.checked_add(auction_fee) {
        Some(sum) => sum,
        None => {
            return Err(TxError::AmountOverflow);
        },
    };
    proof {
        lemma_overlay_insert(base, updates@, auction@, updated_auction_balance.amount);
    }
    updates.insert(auction, updated_auction_balance);
    assert(updates@.dom() =~= old(updates)@.dom());
    Ok(())
}

/// Moves `amount` from `from` to `to` and the fee from `from` to the fee
/// recipient and the auction, or changes nothing.
///
/// `from`, `to`, the fee recipient and the auction's account may be one
/// account in any combination: the balances of the four are staged first, and
/// every step works on the staged values.
pub fn transfer_internal(
    balances: &mut Balances,
    from: Account,
    to: Account,
    amount: Amount,
    fee: Amount,
    fee_to: Account,
    auction_fee_ratio: FeeRatio,
) -> (r: Result<(), TxError>)
    requires
        old(balances).wf(),
    ensures
        final(balances).wf(),
        match transfer_outcome(
            old(balances)@,
            from@,
            to@,
            amount.amount,
            fee.amount,
            fee_to@,
            auction_fee_ratio,
        ) {
            Ok(m) => r is Ok && final(balances)@ == m,
            Err(e) => r == Err::<(), TxError>(e) && *final(balances) == *old(balances),
        },
        r is Ok ==> final(balances).total() == old(balances).total(),
{
    let mut updates: Table<Account> = Table::new();
    stage(&mut updates, balances, from);
    stage(&mut updates, balances, to);
    stage(&mut updates, balances, fee_to);
    stage(&mut updates, balances, auction_account());
    proof {
        lemma_overlay_neutral(balances@, updates@);
    }
    match transfer_staged(
        &mut updates,
        Ghost(balances@),
        from,
        to,
        amount,
        fee,
        fee_to,
        auction_fee_ratio,
    ) {
        Ok(()) => {},
        Err(e) => {
            return Err(e);
        },
    }
    proof {
        lemma_transfer_outcome(
            balances@,
            from@,
            to@,
            amount.amount,
            fee.amount,
            fee_to@,
            auction_fee_ratio,
        );
    }
    // Nothing can fail from here on: the store is written in one go.
    balances.apply_change(&updates);
    Ok(())
}

/// Whether two optional memos are the same.
fn memo_eq(a: &Option<Memo>, b: &Option<Memo>) -> (r: bool)
    ensures
        r == (*a == *b),
{
    match a {
        Some(x) => match b {
            Some(y) => bytes32_eq(x, y),
            None => false,
        },
        None => match b {
            Some(_) => false,
            None => true,
        },
    }
}

/// Whether a record documents the transfer that is being submitted.
fn record_matches(tx: &TxRecord, from: &Account, args: &TransferArgs, created_at: Timestamp) -> (r:
    bool)
    ensures
        r == is_duplicate(*tx, from@, *args, created_at),
{
    if tx.timestamp != created_at {
        return false;
    }
    if !tx.from.same(from) || !tx.to.same(&args.to) {
        return false;
    }
    if !memo_eq(&tx.memo, &args.memo) {
        return false;
    }
    if tx.amount.amount != args.amount.amount {
        return false;
    }
    match args.fee {
        Some(fee) => tx.fee.amount == fee.amount,
        None => true,
    }
}

/// The replay guard. Returns the time under which the submitted transfer is to
/// be recorded: its creation time, or the ledger's time where it names none.
///
/// A submission without a creation time is always let through. One with a
/// creation time is refused as `TooOld` where that time lies further back than
/// the window, as `CreatedInFuture` where it lies further ahead than the
/// permitted drift, and as `Duplicate` where the history, read from its newest
/// record back to the first record older than the window, holds the same
/// transfer.
pub fn validate_and_get_tx_ts(
    state: &CanisterState,
    caller: Principal,
    transfer_args: &TransferArgs,
    now: Timestamp,
) -> (r: Result<Timestamp, TxError>)
    ensures
        r == validated_time(
            state@.history,
            state@.window,
            sender(caller, transfer_args.from_subaccount)@,
            *transfer_args,
            now,
        ),
{
    let from = Account::new(caller, transfer_args.from_subaccount);
    let created_at_time = match transfer_args.created_at_time {
        Some(created_at_time) => created_at_time,
        None => {
            return Ok(now);
        },
    };
    let tx_window = state.window.tx_window;
    if now > created_at_time && now - created_at_time > tx_window {
        return Err(TxError::TooOld { allowed_window_nanos: tx_window });
    }
    if created_at_time > now && created_at_time - now > state.window.permitted_drift {
        return Err(TxError::CreatedInFuture { ledger_time: now });
    }
    let n = state.ledger.len();
    let mut i: usize = n;
    while i > 0
        invariant
            i <= n,
            n == state.ledger@.len(),
            tx_window == state.window.tx_window,
            from == sender(caller, transfer_args.from_subaccount),
            transfer_args.created_at_time == Some(created_at_time),
            now - created_at_time <= tx_window,
            created_at_time - now <= state.window.permitted_drift,
            find_duplicate(
                state.ledger@,
                n as int,
                tx_window,
                now,
                from@,
                *transfer_args,
                created_at_time,
            ) == find_duplicate(
                state.ledger@,
                i as int,
                tx_window,
                now,
                from@,
                *transfer_args,
                created_at_time,
            ),
        decreases i,
    {
        let tx = state.ledger.record(i - 1);
        if now > tx.timestamp && now - tx.timestamp > tx_window {
            return Ok(created_at_time);
        }
        if record_matches(&tx, &from, transfer_args, created_at_time) {
            return Err(TxError::Duplicate { duplicate_of: tx.index });
        }
        i -= 1;
    }
    Ok(created_at_time)
}

/// Transfers `transfer.amount` from the caller's subaccount to `transfer.to`;
/// the caller pays the configured fee on top. Returns the index of the record.
pub fn is20_transfer(
    state: &mut CanisterState,
    caller: Principal,
    transfer: &TransferArgs,
    now: Timestamp,
) -> (r: Result<TxId, TxError>)
    requires
        old(state).wf(),
    ensures
        final(state).wf(),
        final(state)@ == transfer_step(old(state)@, caller, *transfer, now).0,
        r == transfer_step(old(state)@, caller, *transfer, now).1,
        r is Err ==> *final(state) == *old(state),
        old(state)@.conserved() ==> final(state)@.conserved(),
{
    let from = Account::new(caller, transfer.from_subaccount);
    let to = transfer.to;
    let created_at_time = match validate_and_get_tx_ts(state, caller, transfer, now) {
        Ok(time) => time,
        Err(e) => {
            return Err(e);
        },
    };
    let (fee, fee_to) = state.fee_info();
    let fee_ratio = state.bidding_state.fee_ratio;
    match transfer.fee {
        Some(requested_fee) => {
            if fee.amount != requested_fee.amount {
                return Err(TxError::BadFee { expected_fee: fee });
            }
        },
        None => {},
    }
    match transfer_internal(
        &mut state.balances,
        from,
        to,
        transfer.amount,
        fee,
        Account::of_owner(fee_to),
        fee_ratio,
    ) {
        Ok(()) => {},
        Err(e) => {
            return Err(e);
        },
    }
    proof {
        lemma_history_push(
            state.ledger@,
            TxRecord::spec_transfer(
                state.ledger@.len() as u64,
                from,
                to,
                transfer.amount,
                fee,
                transfer.memo,
                created_at_time,
            ),
        );
    }
    let id = state.ledger.transfer(from, to, transfer.amount, fee, transfer.memo, created_at_time);
    Ok(id)
}

/// Transfers an amount that includes the fee: the sender pays exactly
/// `transfer_args.amount`, and the recipient gets that less the fee. Fails
/// with `AmountTooSmall` unless the amount is more than the fee.
pub fn transfer_include_fee(
    state: &mut CanisterState,
    caller: Principal,
    transfer_args: &TransferArgs,
    now: Timestamp,
) -> (r: Result<TxId, TxError>)
    requires
        old(state).wf(),
    ensures
        final(state).wf(),
        final(state)@ == transfer_include_fee_step(old(state)@, caller, *transfer_args, now).0,
        r == transfer_include_fee_step(old(state)@, caller, *transfer_args, now).1,
        r is Err ==> *final(state) == *old(state),
        old(state)@.conserved() ==> final(state)@.conserved(),
{
    let (fee, _) = state.fee_info();
    let adjusted_amount = match transfer_args.amount.checked_sub(fee) {
        Some(rest) => rest,
        None => {
            return Err(TxError::AmountTooSmall);
        },
    };
    if adjusted_amount.is_zero() {
        return Err(TxError::AmountTooSmall);
    }
    is20_transfer(state, caller, &transfer_args.with_amount(adjusted_amount), now)
}

/// Transfers to several recipients from the caller's subaccount, each leg
/// with its own fee: all legs, or none. Returns the indices of the records,
/// one per leg. Where the sender cannot pay a leg, the error names the
/// balance that the sender had before the batch.
pub fn batch_transfer(
    state: &mut CanisterState,
    caller: Principal,
    from_subaccount: Option<Subaccount>,
    transfers: Vec<BatchTransferArgs>,
    now: Timestamp,
) -> (r: Result<Vec<TxId>, TxError>)
    requires
        old(state).wf(),
    ensures
        final(state).wf(),
        final(state)@ == batch_step(old(state)@, caller, from_subaccount, transfers@, now).0,
        match batch_step(old(state)@, caller, from_subaccount, transfers@, now).1 {
            Ok(ids) => r is Ok && r->Ok_0@ == ids,
            Err(e) => r == Err::<Vec<TxId>, TxError>(e),
        },
        r is Err ==> *final(state) == *old(state),
        old(state)@.conserved() ==> final(state)@.conserved(),
{
    let from = Account::new(caller, from_subaccount);
    let (fee, fee_to) = state.fee_info();
    let fee_to = Account::of_owner(fee_to);
    let auction_fee_ratio = state.bidding_state.fee_ratio;
    let ghost before = state.balances@;

    let mut updated_balances: Table<Account> = Table::new();
    stage(&mut updated_balances, &state.balances, from);
    stage(&mut updated_balances, &state.balances, fee_to);
    stage(&mut updated_balances, &state.balances, auction_account());
    let n = transfers.len();
    let mut i: usize = 0;
    while i < n
        invariant
            i <= n,
            n == transfers@.len(),
            state.wf(),
            *state == *old(state),
            state.balances@ == before,
            updated_balances.wf(),
            agrees(updated_balances@, before),
            updated_balances@.dom().contains(from@),
            updated_balances@.dom().contains(fee_to@),
            updated_balances@.dom().contains(auction_account_id()),
            forall|j: int|
                0 <= j < i ==> updated_balances@.dom().contains(
                    (#[trigger] transfers@[j]).receiver@,
                ),
        decreases n - i,
    {
        stage(&mut updated_balances, &state.balances, transfers[i].receiver);
        i += 1;
    }
    proof {
        lemma_overlay_neutral(before, updated_balances@);
        assert(transfers@.take(0) =~= Seq::<BatchTransferArgs>::empty());
    }

    let mut i: usize = 0;
    while i < n
        invariant
            i <= n,
            n == transfers@.len(),
            state.wf(),
            *state == *old(state),
            state.balances@ == before,
            from == sender(caller, from_subaccount),
            fee == state.stats.fee,
            fee_to == account_of(state.stats.fee_to),
            auction_fee_ratio == state.bidding_state.fee_ratio,
            updated_balances.wf(),
            updated_balances@.dom().contains(from@),
            updated_balances@.dom().contains(fee_to@),
            updated_balances@.dom().contains(auction_account_id()),
            forall|j: int|
                0 <= j < n ==> updated_balances@.dom().contains(
                    (#[trigger] transfers@[j]).receiver@,
                ),
            batch_outcome(
                before,
                from@,
                transfers@.take(i as int),
                fee.amount,
                fee_to@,
                auction_fee_ratio,
            ) == Ok::<Map<AccountId, u128>, TxError>(overlay(before, updated_balances@)),
        decreases n - i,
    {
        let leg = transfers[i];
        proof {
            assert(transfers@.take(i + 1).drop_last() =~= transfers@.take(i as int));
            assert(transfers@.take(i + 1).last() == leg);
        }
        match transfer_staged(
            &mut updated_balances,
            Ghost(before),
            from,
            leg.receiver,
            leg.amount,
            fee,
            fee_to,
            auction_fee_ratio,
        ) {
            Ok(()) => {},
            Err(err) => {
                let err = match err {
                    TxError::InsufficientFunds { .. } => TxError::InsufficientFunds {
                        balance: state.balances.balance_of(from),
                    },
                    other => other,
                };
                proof {
                    lemma_batch_failure_is_final(
                        before,
                        from@,
                        transfers@,
                        i + 1,
                        fee.amount,
                        fee_to@,
                        auction_fee_ratio,
                    );
                }
                return Err(err);
            },
        }
        i += 1;
    }
    proof {
        assert(transfers@.take(n as int) =~= transfers@);
        lemma_batch_outcome(before, from@, transfers@, fee.amount, fee_to@, auction_fee_ratio);
        lemma_history_append_transfers(
            state.ledger@,
            batch_records(state.ledger@.len() as int, from, transfers@, fee, now),
        );
    }
    // Every leg has succeeded on the staged balances: now the store is
    // written once, and the history gets one record per leg.
    state.balances.apply_change(&updated_balances);
    let ids = state.ledger.batch_transfer(from, &transfers, fee, now);
    Ok(ids)
}

/// Creates `amount` in the account `to`, on behalf of `caller`. Whether the
/// caller may mint is for the caller of this function to decide.
pub fn mint(
    state: &mut CanisterState,
    caller: Principal,
    to: Account,
    amount: Amount,
    now: Timestamp,
) -> (r: Result<TxId, TxError>)
    requires
        old(state).wf(),
    ensures
        final(state).wf(),
        final(state)@ == mint_step(old(state)@, caller, to, amount, now).0,
        r == mint_step(old(state)@, caller, to, amount, now).1,
        r is Err ==> *final(state) == *old(state),
        r is Ok ==> total(final(state)@.balances) == total(old(state)@.balances) + amount.amount,
        old(state)@.conserved() ==> final(state)@.conserved(),
{
    let balance = state.balances.balance_of(to);
    let new_balance = match balance.checked_add(amount) {
        Some(sum) => sum,
        None => {
            return Err(TxError::AmountOverflow);
        },
    };
    proof {
        lemma_credited(state.balances@, to@, amount.amount);
        lemma_history_push(
            state.ledger@,
            TxRecord::spec_mint(state.ledger@.len() as u64, account_of(caller), to, amount, now),
        );
    }
    state.balances.set_balance(to, new_balance);
    let id = state.ledger.mint(Account::of_owner(caller), to, amount, now);
    Ok(id)
}

/// Mints on a test token, where anybody may.
pub fn mint_test_token(
    state: &mut CanisterState,
    caller: Principal,
    to: Principal,
    to_subaccount: Option<Subaccount>,
    amount: Amount,
    now: Timestamp,
) -> (r: Result<TxId, TxError>)
    requires
        old(state).wf(),
    ensures
        final(state).wf(),
        final(state)@ == mint_step(old(state)@, caller, sender(to, to_subaccount), amount, now).0,
        r == mint_step(old(state)@, caller, sender(to, to_subaccount), amount, now).1,
        r is Err ==> *final(state) == *old(state),
        old(state)@.conserved() ==> final(state)@.conserved(),
{
    mint(state, caller, Account::new(to, to_subaccount), amount, now)
}

/// Mints as the token's owner.
pub fn mint_as_owner(
    state: &mut CanisterState,
    caller: Principal,
    to: Principal,
    to_subaccount: Option<Subaccount>,
    amount: Amount,
    now: Timestamp,
) -> (r: Result<TxId, TxError>)
    requires
        old(state).wf(),
    ensures
        final(state).wf(),
        final(state)@ == mint_step(old(state)@, caller, sender(to, to_subaccount), amount, now).0,
        r == mint_step(old(state)@, caller, sender(to, to_subaccount), amount, now).1,
        r is Err ==> *final(state) == *old(state),
        old(state)@.conserved() ==> final(state)@.conserved(),
{
    mint(state, caller, Account::new(to, to_subaccount), amount, now)
}

/// Destroys `amount` of what `from` holds, on behalf of `caller`. An account
/// that is left with nothing is no longer listed. A burn of zero succeeds and
/// is recorded.
pub fn burn(
    state: &mut CanisterState,
    caller: Principal,
    from: Account,
    amount: Amount,
    now: Timestamp,
) -> (r: Result<TxId, TxError>)
    requires
        old(state).wf(),
    ensures
        final(state).wf(),
        final(state)@ == burn_step(old(state)@, caller, from, amount, now).0,
        r == burn_step(old(state)@, caller, from, amount, now).1,
        r is Err ==> *final(state) == *old(state),
        r is Ok ==> total(final(state)@.balances) == total(old(state)@.balances) - amount.amount,
        old(state)@.conserved() ==> final(state)@.conserved(),
{
    let balance = state.balances.balance_of(from);
    if !amount.is_zero() && balance.is_zero() {
        return Err(TxError::InsufficientFunds { balance });
    }
    let new_balance = match balance.checked_sub(amount) {
        Some(rest) => rest,
        None => {
            return Err(TxError::InsufficientFunds { balance });
        },
    };
    proof {
        lemma_debited(state.balances@, from@, amount.amount as nat);
        lemma_history_push(
            state.ledger@,
            TxRecord::spec_burn(state.ledger@.len() as u64, account_of(caller), from, amount, now),
        );
    }
    if new_balance.is_zero() {
        state.balances.remove(from);
    } else {
        state.balances.set_balance(from, new_balance);
    }
    let id = state.ledger.burn(Account::of_owner(caller), from, amount, now);
    Ok(id)
}

/// Burns what the caller holds in one of its own subaccounts.
pub fn burn_own_tokens(
    state: &mut CanisterState,
    caller: Principal,
    from_subaccount: Option<Subaccount>,
    amount: Amount,
    now: Timestamp,
) -> (r: Result<TxId, TxError>)
    requires
        old(state).wf(),
    ensures
        final(state).wf(),
        final(state)@ == burn_step(
            old(state)@,
            caller,
            sender(caller, from_subaccount),
            amount,
            now,
        ).0,
        r == burn_step(old(state)@, caller, sender(caller, from_subaccount), amount, now).1,
        r is Err ==> *final(state) == *old(state),
        old(state)@.conserved() ==> final(state)@.conserved(),
{
    burn(state, caller, Account::new(caller, from_subaccount), amount, now)
}

/// Burns as the token's owner, from any account.
pub fn burn_as_owner(
    state: &mut CanisterState,
    caller: Principal,
    from: Principal,
    from_subaccount: Option<Subaccount>,
    amount: Amount,
    now: Timestamp,
) -> (r: Result<TxId, TxError>)
    requires
        old(state).wf(),
    ensures
        final(state).wf(),
        final(state)@ == burn_step(
            old(state)@,
            caller,
            sender(from, from_subaccount),
            amount,
            now,
        ).0,
        r == burn_step(old(state)@, caller, sender(from, from_subaccount), amount, now).1,
        r is Err ==> *final(state) == *old(state),
        old(state)@.conserved() ==> final(state)@.conserved(),
{
    burn(state, caller, Account::new(from, from_subaccount), amount, now)
}

/// Credits `amount` to a legacy account identifier, where it waits to be
/// claimed. The balances and the history stay as they are.
pub fn mint_to_accountid(state: &mut CanisterState, to: AccountIdentifier, amount: Amount) -> (r:
    Result<(), TxError>)
    requires
        old(state).wf(),
    ensures
        final(state).wf(),
        final(state)@ == mint_to_accountid_step(old(state)@, to.bytes@, amount).0,
        r == mint_to_accountid_step(old(state)@, to.bytes@, amount).1,
        r is Err ==> *final(state) == *old(state),
        final(state)@.balances == old(state)@.balances,
        final(state)@.history == old(state)@.history,
{
    let balance = state.claim_amount(to);
    let new_balance = match balance.checked_add(amount) {
        Some(sum) => sum,
        None => {
            return Err(TxError::AmountOverflow);
        },
    };
    state.claims.set(to, new_balance);
    Ok(())
}

/// Redeems what waits under the legacy identifier `account`, given the
/// identifier `derived` that the caller's subaccount has in the legacy
/// scheme. See [`claim`], which derives it.
pub fn claim_derived(
    state: &mut CanisterState,
    caller: Principal,
    account: AccountIdentifier,
    subaccount: Option<Subaccount>,
    derived: AccountIdentifier,
    now: Timestamp,
) -> (r: Result<TxId, TxError>)
    requires
        old(state).wf(),
    ensures
        final(state).wf(),
        final(state)@ == claim_step(
            old(state)@,
            caller,
            account.bytes@,
            subaccount,
            derived.bytes@,
            now,
        ).0,
        r == claim_step(old(state)@, caller, account.bytes@, subaccount, derived.bytes@, now).1,
        r is Err ==> *final(state) == *old(state),
        old(state)@.conserved() ==> final(state)@.conserved(),
{
    if !account.same(&derived) {
        return Err(TxError::ClaimNotAllowed);
    }
    let amount = match state.claims.get(&account) {
        Some(amount) => amount,
        None => {
            return Err(TxError::ClaimNotAllowed);
        },
    };
    let to = Account::new(caller, subaccount);
    let id = match mint(state, caller, to, amount, now) {
        Ok(id) => id,
        Err(e) => {
            return Err(e);
        },
    };
    state.claims.remove(&account);
    Ok(id)
}

/// Redeems what waits under the legacy identifier `account` into the caller's
/// subaccount. Only the owner of the identifier may: the caller and the
/// subaccount must derive it. What waits is minted, and the claim is gone.
pub fn claim(
    state: &mut CanisterState,
    caller: Principal,
    account: AccountIdentifier,
    subaccount: Option<Subaccount>,
    now: Timestamp,
) -> (r: Result<TxId, TxError>)
    requires
        old(state).wf(),
    ensures
        final(state).wf(),
        final(state)@ == claim_step(
            old(state)@,
            caller,
            account.bytes@,
            subaccount,
            legacy_account_id(caller@, subaccount_bytes(subaccount)),
            now,
        ).0,
        r == claim_step(
            old(state)@,
            caller,
            account.bytes@,
            subaccount,
            legacy_account_id(caller@, subaccount_bytes(subaccount)),
            now,
        ).1,
        r is Err ==> *final(state) == *old(state),
        old(state)@.conserved() ==> final(state)@.conserved(),
{
    let derived = derive_account_id(&caller, &effective_subaccount(&subaccount));
    claim_derived(state, caller, account, subaccount, derived, now)
}

} // verus!
