use token_ledger::account::{
    auction_account, bytes32_eq, effective_subaccount, Account, Principal,
};
use token_ledger::amount::Amount;
use token_ledger::balances::Balances;
use token_ledger::claims::{AccountIdentifier, Claims};
use token_ledger::error::TxError;
use token_ledger::fee::FeeRatio;
use token_ledger::ledger::{Ledger, Operation, TransactionStatus, TxRecord};
use token_ledger::state::{BiddingState, CanisterState, StatsData, TimeWindow};
use token_ledger::table::Table;
use token_ledger::transactions::{
    batch_transfer, burn, burn_as_owner, burn_own_tokens, is20_transfer, mint, mint_as_owner,
    mint_test_token, mint_to_accountid, transfer_include_fee, transfer_internal,
    validate_and_get_tx_ts,
};
use token_ledger::types::{BatchTransferArgs, TransferArgs};

const DAY: u64 = 86_400_000_000_000;
const WINDOW: u64 = 1_000;
const DRIFT: u64 = 50;
const T: u64 = 10 * DAY;

fn id(bytes: &[u8]) -> Principal {
    Principal::try_from_slice(bytes).unwrap()
}

fn amy() -> Principal {
    id(&[0xa1, 0x01])
}

fn bo() -> Principal {
    id(&[0xb0, 0x02, 0x03])
}

fn cy() -> Principal {
    id(&[0xc7])
}

fn acct(owner: Principal) -> Account {
    Account::new(owner, None)
}

// A ledger in which amy holds `supply`, with a short window for the replay
// guard and the given fee, paid to `fee_to` and divided by `ratio`.
fn ledger_with(supply: u128, fee: u128, fee_to: Principal, ratio: FeeRatio) -> CanisterState {
    let mut balances = Balances::new();
    balances.set_balance(acct(amy()), Amount::new(supply));
    CanisterState {
        balances,
        ledger: Ledger::new(),
        claims: Claims::new(),
        stats: StatsData { owner: amy(), fee: Amount::new(fee), fee_to },
        bidding_state: BiddingState { fee_ratio: ratio },
        window: TimeWindow { tx_window: WINDOW, permitted_drift: DRIFT },
    }
}

fn send(to: Account, amount: u128, created_at_time: Option<u64>) -> TransferArgs {
    TransferArgs {
        from_subaccount: None,
        to,
        amount: Amount::new(amount),
        fee: None,
        memo: None,
        created_at_time,
    }
}

fn of(state: &CanisterState, account: Account) -> u128 {
    state.balances.balance_of(account).amount
}

fn sum_of(state: &CanisterState, accounts: &[Account]) -> u128 {
    accounts.iter().map(|a| of(state, *a)).sum()
}

#[test]
fn balances_add_up_to_minted_less_burned() {
    let ratio = FeeRatio::new(1, 4).unwrap();
    let mut state = ledger_with(0, 10, cy(), ratio);
    let everyone = [acct(amy()), acct(bo()), acct(cy()), auction_account()];
    let mut minted: u128 = 0;
    let mut burned: u128 = 0;

    mint(&mut state, amy(), acct(amy()), Amount::new(5_000), T).unwrap();
    minted += 5_000;
    assert_eq!(sum_of(&state, &everyone), minted - burned);

    is20_transfer(&mut state, amy(), &send(acct(bo()), 1_200, None), T).unwrap();
    assert_eq!(sum_of(&state, &everyone), minted - burned);
    assert_eq!(of(&state, acct(amy())), 5_000 - 1_200 - 10);
    assert_eq!(of(&state, acct(cy())), 8);
    assert_eq!(of(&state, auction_account()), 2);

    burn(&mut state, bo(), acct(bo()), Amount::new(200), T).unwrap();
    burned += 200;
    assert_eq!(sum_of(&state, &everyone), minted - burned);

    // A refused transfer, a refused burn and a refused batch change nothing.
    assert!(is20_transfer(&mut state, bo(), &send(acct(amy()), 1_000, None), T).is_err());
    assert!(burn(&mut state, cy(), acct(cy()), Amount::new(9), T).is_err());
    let legs = vec![
        BatchTransferArgs { receiver: acct(bo()), amount: Amount::new(1) },
        BatchTransferArgs { receiver: acct(cy()), amount: Amount::new(4_000) },
    ];
    assert!(batch_transfer(&mut state, amy(), None, legs, T).is_err());
    assert_eq!(sum_of(&state, &everyone), minted - burned);

    let legs = vec![
        BatchTransferArgs { receiver: acct(bo()), amount: Amount::new(30) },
        BatchTransferArgs { receiver: acct(amy()), amount: Amount::new(40) },
        BatchTransferArgs { receiver: auction_account(), amount: Amount::new(50) },
    ];
    batch_transfer(&mut state, amy(), None, legs, T).unwrap();
    assert_eq!(sum_of(&state, &everyone), minted - burned);
    assert_eq!(sum_of(&state, &everyone), 4_800);
    assert_eq!(state.balances.len(), 4);
}

#[test]
fn an_emptied_account_is_no_longer_listed() {
    let mut state = ledger_with(100, 0, amy(), FeeRatio::all_to_owner());
    assert_eq!(state.balances.len(), 1);
    is20_transfer(&mut state, amy(), &send(acct(bo()), 100, None), T).unwrap();
    assert_eq!(of(&state, acct(amy())), 0);
    assert_eq!(of(&state, acct(bo())), 100);
    // amy is gone; the fee recipient and the auction got nothing and were
    // never listed.
    assert_eq!(state.balances.len(), 1);
    burn(&mut state, bo(), acct(bo()), Amount::new(100), T).unwrap();
    assert_eq!(state.balances.len(), 0);
    mint(&mut state, amy(), acct(cy()), Amount::new(0), T).unwrap();
    assert_eq!(state.balances.len(), 0);
    let mut store = Balances::new();
    store.set_balance(acct(cy()), Amount::new(3));
    store.set_balance(acct(cy()), Amount::new(0));
    assert_eq!(store.len(), 0);
    store.set_balance(acct(cy()), Amount::new(4));
    store.remove(acct(cy()));
    assert_eq!(store.len(), 0);
    assert_eq!(store.balance_of(acct(cy())), Amount::new(0));
}

#[test]
fn resubmitted_transfer_is_applied_once() {
    let mut state = ledger_with(1_000, 5, cy(), FeeRatio::all_to_owner());
    mint(&mut state, amy(), acct(cy()), Amount::new(1), T).unwrap();
    let args = TransferArgs {
        from_subaccount: None,
        to: acct(bo()),
        amount: Amount::new(100),
        fee: Some(Amount::new(5)),
        memo: Some([9; 32]),
        created_at_time: Some(T),
    };
    let first = is20_transfer(&mut state, amy(), &args, T).unwrap();
    assert_eq!(first, 1);
    assert_eq!(of(&state, acct(amy())), 895);
    assert_eq!(of(&state, acct(bo())), 100);

    let second = is20_transfer(&mut state, amy(), &args, T + WINDOW);
    assert_eq!(second, Err(TxError::Duplicate { duplicate_of: first }));
    assert_eq!(of(&state, acct(amy())), 895);
    assert_eq!(of(&state, acct(bo())), 100);
    assert_eq!(of(&state, acct(cy())), 6);
    assert_eq!(state.ledger.len(), 2);

    // The fee-inclusive entry point runs into the same guard.
    let gross = args.with_amount(Amount::new(105));
    assert_eq!(
        transfer_include_fee(&mut state, amy(), &gross, T),
        Err(TxError::Duplicate { duplicate_of: first })
    );
    // Without a named fee the submission matches whatever fee was recorded.
    let mut any_fee = args;
    any_fee.fee = None;
    assert_eq!(
        validate_and_get_tx_ts(&state, amy(), &any_fee, T),
        Err(TxError::Duplicate { duplicate_of: first })
    );
    // One field apart, it is another transfer.
    let mut other = args;
    other.fee = Some(Amount::new(6));
    assert_eq!(validate_and_get_tx_ts(&state, amy(), &other, T), Ok(T));
    let mut other = args;
    other.memo = None;
    assert_eq!(validate_and_get_tx_ts(&state, amy(), &other, T), Ok(T));
    let mut other = args;
    other.to = acct(cy());
    assert_eq!(validate_and_get_tx_ts(&state, amy(), &other, T), Ok(T));
    let mut other = args;
    other.from_subaccount = Some([1; 32]);
    assert_eq!(validate_and_get_tx_ts(&state, amy(), &other, T), Ok(T));
    assert_eq!(validate_and_get_tx_ts(&state, bo(), &args, T), Ok(T));
    // The default subaccount, written out, is the same sender.
    let mut same = args;
    same.from_subaccount = Some([0; 32]);
    assert_eq!(
        validate_and_get_tx_ts(&state, amy(), &same, T),
        Err(TxError::Duplicate { duplicate_of: first })
    );
}

#[test]
fn replay_guard_window_and_drift_are_inclusive() {
    let state = ledger_with(1_000, 0, amy(), FeeRatio::all_to_owner());
    let at = |t: u64| send(acct(bo()), 1, Some(t));
    assert_eq!(validate_and_get_tx_ts(&state, amy(), &at(T - WINDOW), T), Ok(T - WINDOW));
    assert_eq!(
        validate_and_get_tx_ts(&state, amy(), &at(T - WINDOW - 1), T),
        Err(TxError::TooOld { allowed_window_nanos: WINDOW })
    );
    assert_eq!(validate_and_get_tx_ts(&state, amy(), &at(T + DRIFT), T), Ok(T + DRIFT));
    assert_eq!(
        validate_and_get_tx_ts(&state, amy(), &at(T + DRIFT + 1), T),
        Err(TxError::CreatedInFuture { ledger_time: T })
    );
    assert_eq!(validate_and_get_tx_ts(&state, amy(), &send(acct(bo()), 1, None), T), Ok(T));
    assert_eq!(
        validate_and_get_tx_ts(&state, amy(), &at(0), u64::MAX),
        Err(TxError::TooOld { allowed_window_nanos: WINDOW })
    );
    assert_eq!(
        validate_and_get_tx_ts(&state, amy(), &at(u64::MAX), 0),
        Err(TxError::CreatedInFuture { ledger_time: 0 })
    );
}

#[test]
fn replay_guard_stops_at_the_first_record_older_than_the_window() {
    let mut state = ledger_with(1_000, 0, amy(), FeeRatio::all_to_owner());
    let args = send(acct(bo()), 10, Some(T));
    let first = is20_transfer(&mut state, amy(), &args, T).unwrap();
    // A record that is newer than the transfer does not hide it.
    mint(&mut state, amy(), acct(cy()), Amount::new(1), T + 1).unwrap();
    assert_eq!(
        validate_and_get_tx_ts(&state, amy(), &args, T + 2),
        Err(TxError::Duplicate { duplicate_of: first })
    );
    // A record that is older than the window ends the search, wherever it
    // stands in the history.
    mint(&mut state, amy(), acct(cy()), Amount::new(1), T - WINDOW - 1).unwrap();
    assert_eq!(validate_and_get_tx_ts(&state, amy(), &args, T), Ok(T));
    assert_eq!(is20_transfer(&mut state, amy(), &args, T), Ok(3));
    assert_eq!(
        validate_and_get_tx_ts(&state, amy(), &args, T),
        Err(TxError::Duplicate { duplicate_of: 3 })
    );
}

#[test]
fn failed_batch_leaves_everything_as_it_was() {
    let mut state = ledger_with(1_000, 50, cy(), FeeRatio::new(1, 2).unwrap());
    is20_transfer(&mut state, amy(), &send(acct(bo()), 100, None), T).unwrap();
    let before = (
        of(&state, acct(amy())),
        of(&state, acct(bo())),
        of(&state, acct(cy())),
        of(&state, auction_account()),
        state.balances.len(),
        state.ledger.len(),
    );
    assert_eq!(before, (850, 100, 25, 25, 4, 1));
    let legs = vec![
        BatchTransferArgs { receiver: acct(bo()), amount: Amount::new(300) },
        BatchTransferArgs { receiver: acct(cy()), amount: Amount::new(300) },
        BatchTransferArgs { receiver: acct(bo()), amount: Amount::new(300) },
    ];
    // The third leg cannot be paid: the error names what amy held before the
    // batch, not what the first two legs had left her.
    assert_eq!(
        batch_transfer(&mut state, amy(), None, legs, T),
        Err(TxError::InsufficientFunds { balance: Amount::new(850) })
    );
    let after = (
        of(&state, acct(amy())),
        of(&state, acct(bo())),
        of(&state, acct(cy())),
        of(&state, auction_account()),
        state.balances.len(),
        state.ledger.len(),
    );
    assert_eq!(after, before);
}

#[test]
fn batch_with_an_overflowing_leg_fails_whole() {
    let mut state = ledger_with(1_000, 0, amy(), FeeRatio::all_to_owner());
    mint(&mut state, amy(), acct(bo()), Amount::new(u128::MAX - 5), T).unwrap();
    let legs = vec![
        BatchTransferArgs { receiver: acct(cy()), amount: Amount::new(1) },
        BatchTransferArgs { receiver: acct(bo()), amount: Amount::new(5) },
        BatchTransferArgs { receiver: acct(bo()), amount: Amount::new(1) },
    ];
    assert_eq!(batch_transfer(&mut state, amy(), None, legs, T), Err(TxError::AmountOverflow));
    assert_eq!(of(&state, acct(amy())), 1_000);
    assert_eq!(of(&state, acct(cy())), 0);
    assert_eq!(of(&state, acct(bo())), u128::MAX - 5);
    assert_eq!(state.ledger.len(), 1);
}

#[test]
fn empty_batch_succeeds_and_records_nothing() {
    let mut state = ledger_with(10, 50, cy(), FeeRatio::all_to_owner());
    assert_eq!(batch_transfer(&mut state, amy(), None, vec![], T), Ok(vec![]));
    assert_eq!(of(&state, acct(amy())), 10);
    assert_eq!(state.ledger.len(), 0);
}

#[test]
fn fee_shares_add_up_to_the_fee() {
    let third = FeeRatio::new(1, 3).unwrap();
    assert_eq!(third.get_value(Amount::new(100)), (Amount::new(67), Amount::new(33)));
    assert_eq!(third.get_value(Amount::new(2)), (Amount::new(2), Amount::new(0)));
    assert_eq!(third.get_value(Amount::new(0)), (Amount::new(0), Amount::new(0)));
    let half = FeeRatio::new(1, 2).unwrap();
    assert_eq!(half.get_value(Amount::new(101)), (Amount::new(51), Amount::new(50)));
    let seven_ninths = FeeRatio::new(7, 9).unwrap();
    assert_eq!(seven_ninths.get_value(Amount::new(1_000)), (Amount::new(223), Amount::new(777)));
    let all = FeeRatio::new(5, 5).unwrap();
    assert_eq!(all.get_value(Amount::new(u128::MAX)), (Amount::new(0), Amount::new(u128::MAX)));
    let none = FeeRatio::all_to_owner();
    assert_eq!(none.get_value(Amount::new(u128::MAX)), (Amount::new(u128::MAX), Amount::new(0)));
    let fine = FeeRatio::new(123_456_789, 1_000_000_007).unwrap();
    let fee: u128 = 1_000_000_000_000_000_000_000_000_000_000;
    let (owner, auction) = fine.get_value(Amount::new(fee));
    assert_eq!(auction, Amount::new(123_456_788_135_802_483_049_382_618_654));
    assert_eq!(owner.amount + auction.amount, fee);
    let widest = FeeRatio::new(u64::MAX - 1, u64::MAX).unwrap();
    let (owner, auction) = widest.get_value(Amount::new(u128::MAX));
    assert_eq!(auction, Amount::new(340_282_366_920_938_463_444_927_863_358_058_659_838));
    assert_eq!(owner, Amount::new(18_446_744_073_709_551_617));
}

#[test]
fn fee_ratio_must_be_a_part_of_a_whole() {
    assert!(FeeRatio::new(0, 0).is_none());
    assert!(FeeRatio::new(1, 0).is_none());
    assert!(FeeRatio::new(3, 2).is_none());
    assert!(FeeRatio::new(0, 1).is_some());
    assert!(FeeRatio::new(2, 2).is_some());
}

#[test]
fn transfer_splits_the_fee_between_recipient_and_auction() {
    let mut state = ledger_with(1_000, 9, cy(), FeeRatio::new(1, 2).unwrap());
    is20_transfer(&mut state, amy(), &send(acct(bo()), 100, None), T).unwrap();
    assert_eq!(of(&state, acct(amy())), 891);
    assert_eq!(of(&state, acct(bo())), 100);
    assert_eq!(of(&state, acct(cy())), 5);
    assert_eq!(of(&state, auction_account()), 4);
}

#[test]
fn accounts_of_a_transfer_may_coincide() {
    // The sender is the fee recipient: half of the fee comes back.
    let mut state = ledger_with(1_000, 10, amy(), FeeRatio::new(1, 2).unwrap());
    is20_transfer(&mut state, amy(), &send(acct(bo()), 100, None), T).unwrap();
    assert_eq!(of(&state, acct(amy())), 1_000 - 110 + 5);
    assert_eq!(of(&state, auction_account()), 5);

    // The sender is the recipient: only the fee leaves.
    let mut state = ledger_with(1_000, 10, cy(), FeeRatio::all_to_owner());
    is20_transfer(&mut state, amy(), &send(acct(amy()), 990, None), T).unwrap();
    assert_eq!(of(&state, acct(amy())), 990);
    assert_eq!(of(&state, acct(cy())), 10);
    // But the amount and the fee must be there to begin with.
    assert_eq!(
        is20_transfer(&mut state, amy(), &send(acct(amy()), 990, None), T),
        Err(TxError::InsufficientFunds { balance: Amount::new(990) })
    );

    // The recipient is the fee recipient and the auction at once.
    let mut state = ledger_with(1_000, 10, Principal::management_canister(), FeeRatio::new(3, 10).unwrap());
    is20_transfer(&mut state, amy(), &send(auction_account(), 100, None), T).unwrap();
    assert_eq!(of(&state, acct(amy())), 890);
    assert_eq!(of(&state, auction_account()), 110);
    assert_eq!(state.balances.len(), 2);

    // Everything is one account: nothing moves.
    let mut store = Balances::new();
    store.set_balance(auction_account(), Amount::new(50));
    let r = transfer_internal(
        &mut store,
        auction_account(),
        auction_account(),
        Amount::new(40),
        Amount::new(10),
        auction_account(),
        FeeRatio::new(1, 2).unwrap(),
    );
    assert_eq!(r, Ok(()));
    assert_eq!(store.balance_of(auction_account()), Amount::new(50));
    assert_eq!(store.len(), 1);
}

#[test]
fn transfer_that_cannot_be_paid_names_the_balance() {
    let mut state = ledger_with(100, 10, cy(), FeeRatio::all_to_owner());
    assert_eq!(
        is20_transfer(&mut state, amy(), &send(acct(bo()), 91, None), T),
        Err(TxError::InsufficientFunds { balance: Amount::new(100) })
    );
    assert_eq!(is20_transfer(&mut state, amy(), &send(acct(bo()), 90, None), T), Ok(0));
    assert_eq!(
        is20_transfer(&mut state, bo(), &send(acct(amy()), u128::MAX, None), T),
        Err(TxError::InsufficientFunds { balance: Amount::new(90) })
    );
    assert_eq!(
        is20_transfer(&mut state, id(&[1, 1, 1, 1]), &send(acct(amy()), 0, None), T),
        Err(TxError::InsufficientFunds { balance: Amount::new(0) })
    );
    assert_eq!(state.ledger.len(), 1);
}

#[test]
fn transfer_that_would_overflow_an_account_changes_nothing() {
    let mut state = ledger_with(100, 10, cy(), FeeRatio::new(1, 2).unwrap());
    mint(&mut state, amy(), acct(bo()), Amount::new(u128::MAX - 3), T).unwrap();
    assert_eq!(
        is20_transfer(&mut state, amy(), &send(acct(bo()), 4, None), T),
        Err(TxError::AmountOverflow)
    );
    assert_eq!(of(&state, acct(amy())), 100);
    // The fee recipient overflows.
    state.stats.fee_to = bo();
    assert_eq!(
        is20_transfer(&mut state, amy(), &send(acct(cy()), 1, None), T),
        Err(TxError::AmountOverflow)
    );
    assert_eq!(of(&state, acct(amy())), 100);
    assert_eq!(of(&state, acct(cy())), 0);
    assert_eq!(of(&state, auction_account()), 0);
    assert_eq!(state.ledger.len(), 1);
    assert_eq!(
        mint(&mut state, amy(), acct(bo()), Amount::new(4), T),
        Err(TxError::AmountOverflow)
    );
    assert_eq!(mint(&mut state, amy(), acct(bo()), Amount::new(3), T), Ok(1));
    assert_eq!(of(&state, acct(bo())), u128::MAX);
}

#[test]
fn named_fee_must_be_the_configured_fee() {
    let mut state = ledger_with(1_000, 10, cy(), FeeRatio::all_to_owner());
    let mut args = send(acct(bo()), 100, None);
    args.fee = Some(Amount::new(9));
    assert_eq!(
        is20_transfer(&mut state, amy(), &args, T),
        Err(TxError::BadFee { expected_fee: Amount::new(10) })
    );
    assert_eq!(of(&state, acct(amy())), 1_000);
    args.fee = Some(Amount::new(10));
    assert_eq!(is20_transfer(&mut state, amy(), &args, T), Ok(0));
    // The replay guard speaks before the fee check does.
    args.fee = Some(Amount::new(11));
    args.created_at_time = Some(T - WINDOW - 1);
    assert_eq!(
        is20_transfer(&mut state, amy(), &args, T),
        Err(TxError::TooOld { allowed_window_nanos: WINDOW })
    );
}

#[test]
fn fee_inclusive_amount_must_exceed_the_fee() {
    let mut state = ledger_with(1_000, 100, cy(), FeeRatio::all_to_owner());
    assert_eq!(
        transfer_include_fee(&mut state, amy(), &send(acct(bo()), 100, None), T),
        Err(TxError::AmountTooSmall)
    );
    assert_eq!(
        transfer_include_fee(&mut state, amy(), &send(acct(bo()), 99, None), T),
        Err(TxError::AmountTooSmall)
    );
    assert_eq!(
        transfer_include_fee(&mut state, amy(), &send(acct(bo()), 0, None), T),
        Err(TxError::AmountTooSmall)
    );
    assert_eq!(of(&state, acct(amy())), 1_000);
    assert_eq!(transfer_include_fee(&mut state, amy(), &send(acct(bo()), 101, None), T), Ok(0));
    assert_eq!(of(&state, acct(amy())), 899);
    assert_eq!(of(&state, acct(bo())), 1);
    assert_eq!(of(&state, acct(cy())), 100);
}

#[test]
fn burn_of_zero_succeeds_and_is_recorded() {
    let mut state = ledger_with(0, 0, amy(), FeeRatio::all_to_owner());
    assert_eq!(burn(&mut state, amy(), acct(bo()), Amount::new(0), T), Ok(0));
    let record = state.ledger.get(0).unwrap();
    assert_eq!(record.operation, Operation::Burn);
    assert_eq!(record.amount, Amount::new(0));
    assert!(record.from.same(&acct(bo())));
    assert!(record.to.same(&acct(bo())));
    assert!(record.caller.unwrap().same(&acct(amy())));
    assert_eq!(
        burn(&mut state, amy(), acct(bo()), Amount::new(1), T),
        Err(TxError::InsufficientFunds { balance: Amount::new(0) })
    );
}

#[test]
fn mint_and_burn_variants_address_the_named_subaccount() {
    let mut state = ledger_with(0, 0, amy(), FeeRatio::all_to_owner());
    let sub = [8u8; 32];
    assert_eq!(mint_as_owner(&mut state, amy(), bo(), Some(sub), Amount::new(10), T), Ok(0));
    assert_eq!(mint_test_token(&mut state, cy(), bo(), None, Amount::new(20), T), Ok(1));
    assert_eq!(of(&state, Account::new(bo(), Some(sub))), 10);
    assert_eq!(of(&state, acct(bo())), 20);
    assert!(state.ledger.get(1).unwrap().from.same(&acct(cy())));
    assert_eq!(burn_own_tokens(&mut state, bo(), Some(sub), Amount::new(4), T), Ok(2));
    assert_eq!(of(&state, Account::new(bo(), Some(sub))), 6);
    assert_eq!(burn_as_owner(&mut state, amy(), bo(), None, Amount::new(20), T), Ok(3));
    assert_eq!(of(&state, acct(bo())), 0);
    assert_eq!(
        burn_own_tokens(&mut state, bo(), None, Amount::new(1), T),
        Err(TxError::InsufficientFunds { balance: Amount::new(0) })
    );
    assert_eq!(state.balances.len(), 1);
}

#[test]
fn credit_to_a_legacy_identifier_accumulates_without_wrapping() {
    let mut state = ledger_with(5, 0, amy(), FeeRatio::all_to_owner());
    let to = AccountIdentifier { bytes: [1u8; 32] };
    assert_eq!(mint_to_accountid(&mut state, to, Amount::new(u128::MAX - 1)), Ok(()));
    assert_eq!(mint_to_accountid(&mut state, to, Amount::new(2)), Err(TxError::AmountOverflow));
    assert_eq!(state.claim_amount(to), Amount::new(u128::MAX - 1));
    assert_eq!(mint_to_accountid(&mut state, to, Amount::new(1)), Ok(()));
    assert_eq!(state.claim_amount(to), Amount::new(u128::MAX));
    assert_eq!(state.claim_amount(AccountIdentifier { bytes: [2u8; 32] }), Amount::new(0));
    assert_eq!(of(&state, acct(amy())), 5);
    assert_eq!(state.ledger.len(), 0);
}

#[test]
fn absent_subaccount_is_the_default_subaccount() {
    let plain = Account::new(amy(), None);
    let spelled = Account::new(amy(), Some([0u8; 32]));
    let other = Account::new(amy(), Some([1u8; 32]));
    assert!(plain.same(&spelled));
    assert!(!plain.same(&other));
    assert!(!plain.same(&Account::of_owner(bo())));
    assert_eq!(effective_subaccount(&None), [0u8; 32]);
    assert_eq!(effective_subaccount(&Some([3u8; 32])), [3u8; 32]);
    let mut store = Balances::new();
    store.set_balance(plain, Amount::new(10));
    assert_eq!(store.balance_of(spelled), Amount::new(10));
    assert_eq!(store.balance_of(other), Amount::new(0));
    store.set_balance(spelled, Amount::new(11));
    assert_eq!(store.balance_of(plain), Amount::new(11));
    assert_eq!(store.len(), 1);
}

#[test]
fn principal_holds_at_most_twenty_nine_bytes() {
    assert!(Principal::try_from_slice(&[1u8; 29]).is_some());
    assert!(Principal::try_from_slice(&[1u8; 30]).is_none());
    assert_eq!(Principal::try_from_slice(&[]).unwrap().to_vec(), Vec::<u8>::new());
    assert_eq!(Principal::management_canister().to_vec(), Vec::<u8>::new());
    let p = Principal::try_from_slice(&[1, 2, 3]).unwrap();
    assert_eq!(p.to_vec(), vec![1, 2, 3]);
    assert!(p.same(&Principal::try_from_slice(&[1, 2, 3]).unwrap()));
    assert!(!p.same(&Principal::try_from_slice(&[1, 2]).unwrap()));
    assert!(!p.same(&Principal::try_from_slice(&[1, 2, 4]).unwrap()));
    assert!(!p.same(&Principal::try_from_slice(&[1, 2, 3, 0]).unwrap()));
    assert!(bytes32_eq(&[4u8; 32], &[4u8; 32]));
    let mut almost = [4u8; 32];
    almost[31] = 5;
    assert!(!bytes32_eq(&[4u8; 32], &almost));
}

#[test]
fn amounts_do_not_wrap() {
    let max = Amount::new(u128::MAX);
    assert_eq!(max.checked_add(Amount::new(1)), None);
    assert_eq!(max.checked_add(Amount::zero()), Some(max));
    assert_eq!(Amount::new(2).checked_add(Amount::new(3)), Some(Amount::new(5)));
    assert_eq!(Amount::new(2).checked_sub(Amount::new(3)), None);
    assert_eq!(Amount::new(3).checked_sub(Amount::new(3)), Some(Amount::zero()));
    assert_eq!(max.checked_sub(Amount::new(1)), Some(Amount::new(u128::MAX - 1)));
    assert!(Amount::zero().is_zero());
    assert!(!Amount::new(1).is_zero());
    assert_eq!(Amount::from(7), Amount { amount: 7 });
}

#[test]
fn records_carry_what_they_are_made_with() {
    let a = acct(amy());
    let b = acct(bo());
    let c = acct(cy());
    let memo = Some([7u8; 32]);
    let r = TxRecord::transfer(3, a, b, Amount::new(10), Amount::new(1), memo, T);
    assert_eq!((r.index, r.amount, r.fee, r.timestamp), (3, Amount::new(10), Amount::new(1), T));
    assert_eq!((r.operation, r.status), (Operation::Transfer, TransactionStatus::Succeeded));
    assert_eq!(r.memo, memo);
    assert!(r.caller.unwrap().same(&a) && r.from.same(&a) && r.to.same(&b));
    let r = TxRecord::transfer_from(4, a, b, Amount::new(10), Amount::new(1), c, T);
    assert_eq!(r.operation, Operation::TransferFrom);
    assert!(r.caller.unwrap().same(&c) && r.from.same(&a) && r.to.same(&b));
    let r = TxRecord::approve(5, a, b, Amount::new(10), Amount::new(1), T);
    assert_eq!((r.operation, r.fee), (Operation::Approve, Amount::new(1)));
    assert!(r.caller.unwrap().same(&a) && r.from.same(&a) && r.to.same(&b));
    let r = TxRecord::mint(6, a, b, Amount::new(10), T);
    assert_eq!((r.operation, r.fee, r.index), (Operation::Mint, Amount::new(0), 6));
    assert!(r.caller.unwrap().same(&a) && r.from.same(&a) && r.to.same(&b));
    let r = TxRecord::burn(7, a, b, Amount::new(10), T);
    assert_eq!((r.operation, r.fee, r.index), (Operation::Burn, Amount::new(0), 7));
    assert!(r.caller.unwrap().same(&a) && r.from.same(&b) && r.to.same(&b));
    let r = TxRecord::auction(8, c, Amount::new(10), T);
    assert_eq!((r.operation, r.fee, r.index), (Operation::Auction, Amount::new(0), 8));
    assert!(r.caller.unwrap().same(&c) && r.from.same(&c) && r.to.same(&c));
    assert_eq!(r.memo, None);
}

#[test]
fn history_numbers_its_records_without_a_gap() {
    let mut ledger = Ledger::new();
    assert_eq!(ledger.next_id(), 0);
    assert!(ledger.get(0).is_none());
    let a = acct(amy());
    let b = acct(bo());
    assert_eq!(ledger.mint(a, a, Amount::new(9), T), 0);
    assert_eq!(ledger.transfer(a, b, Amount::new(1), Amount::new(0), None, T + 1), 1);
    assert_eq!(ledger.burn(a, b, Amount::new(1), T + 2), 2);
    let legs = vec![
        BatchTransferArgs { receiver: b, amount: Amount::new(2) },
        BatchTransferArgs { receiver: a, amount: Amount::new(3) },
    ];
    assert_eq!(ledger.batch_transfer(a, &legs, Amount::new(4), T + 3), vec![3, 4]);
    assert_eq!(ledger.len(), 5);
    assert_eq!(ledger.next_id(), 5);
    for i in 0..5 {
        assert_eq!(ledger.get(i as u64).unwrap().index, i as u64);
        assert_eq!(ledger.record(i).index, i as u64);
    }
    assert_eq!(ledger.get(4).unwrap().amount, Amount::new(3));
    assert_eq!(ledger.get(4).unwrap().fee, Amount::new(4));
    assert_eq!(ledger.get(4).unwrap().timestamp, T + 3);
    assert!(ledger.get(5).is_none());
}

#[test]
fn table_keeps_one_entry_per_key() {
    let mut table: Table<Account> = Table::new();
    assert_eq!(table.len(), 0);
    assert_eq!(table.get(&acct(amy())), None);
    table.insert(acct(amy()), Amount::new(0));
    table.insert(acct(bo()), Amount::new(2));
    table.insert(Account::new(amy(), Some([0u8; 32])), Amount::new(3));
    assert_eq!(table.len(), 2);
    assert_eq!(table.get(&acct(amy())), Some(Amount::new(3)));
    assert_eq!(table.entry(1).amount, Amount::new(2));
    table.remove(&acct(cy()));
    assert_eq!(table.len(), 2);
    table.remove(&acct(amy()));
    assert_eq!(table.len(), 1);
    assert_eq!(table.get(&acct(amy())), None);
    assert_eq!(table.get(&acct(bo())), Some(Amount::new(2)));
}

#[test]
fn staged_changes_are_written_entry_by_entry() {
    let mut store = Balances::new();
    store.set_balance(acct(amy()), Amount::new(10));
    store.set_balance(acct(bo()), Amount::new(20));
    let mut updates: Table<Account> = Table::new();
    updates.insert(acct(amy()), Amount::new(0));
    updates.insert(acct(cy()), Amount::new(5));
    store.apply_change(&updates);
    assert_eq!(store.balance_of(acct(amy())), Amount::new(0));
    assert_eq!(store.balance_of(acct(bo())), Amount::new(20));
    assert_eq!(store.balance_of(acct(cy())), Amount::new(5));
    assert_eq!(store.len(), 2);
}
