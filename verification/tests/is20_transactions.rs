use token_ledger::account::{Account, Principal, Subaccount};
use token_ledger::amount::Amount;
use token_ledger::error::TxError;
use token_ledger::state::{CanisterState, Metadata, TimeWindow};
use token_ledger::transactions::{
    batch_transfer, is20_transfer, mint, transfer_include_fee, validate_and_get_tx_ts,
};
use token_ledger::types::{BatchTransferArgs, TransferArgs};

const NOW: u64 = 1_650_000_000_000_000_000;

fn principal(text: &str) -> Principal {
    let principal = candid::Principal::from_text(text).unwrap();
    Principal::try_from_slice(principal.as_slice()).unwrap()
}

fn alice() -> Principal {
    principal("sgymv-uiaaa-aaaaa-aaaia-cai")
}

fn bob() -> Principal {
    principal("ai7t5-aibaq-aaaaa-aaaaa-c")
}

fn john() -> Principal {
    principal("hozae-racaq-aaaaa-aaaaa-c")
}

fn xtc() -> Principal {
    principal("aanaa-xaaaa-aaaah-aaeiq-cai")
}

// A subaccount that is neither absent nor the default one.
fn gen_subaccount() -> Subaccount {
    let mut subaccount = [0u8; 32];
    for (i, byte) in subaccount.iter_mut().enumerate() {
        *byte = (i as u8).wrapping_mul(37).wrapping_add(11);
    }
    subaccount
}

// The token as alice creates it: she holds 1000, and transfers are free.
fn test_canister() -> CanisterState {
    CanisterState::init(
        Metadata {
            owner: alice(),
            fee: Amount::from(0),
            fee_to: alice(),
            window: TimeWindow { tx_window: 60_000_000_000, permitted_drift: 120_000_000_000 },
        },
        Amount::from(1000),
        NOW,
    )
}

fn balance_of(state: &CanisterState, account: Account) -> Amount {
    state.balances.balance_of(account)
}

// Alice sends a fee-inclusive amount, without memo or creation time.
fn alice_sends_including_fee(
    state: &mut CanisterState,
    to: Principal,
    to_subaccount: Option<Subaccount>,
    amount: Amount,
) -> Result<u64, TxError> {
    let args = TransferArgs {
        from_subaccount: None,
        to: Account::new(to, to_subaccount),
        amount,
        fee: None,
        memo: None,
        created_at_time: None,
    };
    transfer_include_fee(state, alice(), &args, NOW)
}

// The replay tests move 10 000 at a time, which alice has to hold first.
fn fund_alice(state: &mut CanisterState) {
    mint(state, alice(), Account::new(alice(), None), Amount::from(100_000), NOW).unwrap();
}

#[test]
fn batch_transfer_without_fee() {
    let mut canister = test_canister();
    assert_eq!(Amount::from(1000), balance_of(&canister, Account::new(alice(), None)));
    let transfer1 = BatchTransferArgs {
        receiver: Account { owner: bob(), subaccount: None },
        amount: Amount::from(100),
    };
    let transfer2 = BatchTransferArgs {
        receiver: Account { owner: john(), subaccount: None },
        amount: Amount::from(200),
    };
    let receipt =
        batch_transfer(&mut canister, alice(), None, vec![transfer1, transfer2], NOW).unwrap();
    assert_eq!(receipt.len(), 2);
    assert_eq!(balance_of(&canister, Account::new(alice(), None)), Amount::from(700));
    assert_eq!(balance_of(&canister, Account::new(bob(), None)), Amount::from(100));
    assert_eq!(balance_of(&canister, Account::new(john(), None)), Amount::from(200));
}

#[test]
fn batch_transfer_with_fee() {
    let mut canister = test_canister();
    canister.stats.fee = Amount::from(50);
    canister.stats.fee_to = john();
    assert_eq!(Amount::from(1000), balance_of(&canister, Account::new(alice(), None)));
    let transfer1 = BatchTransferArgs {
        receiver: Account { owner: bob(), subaccount: None },
        amount: Amount::from(100),
    };
    let transfer2 = BatchTransferArgs {
        receiver: Account { owner: xtc(), subaccount: None },
        amount: Amount::from(200),
    };
    let receipt =
        batch_transfer(&mut canister, alice(), None, vec![transfer1, transfer2], NOW).unwrap();
    assert_eq!(receipt.len(), 2);
    assert_eq!(balance_of(&canister, Account::new(alice(), None)), Amount::from(600));
    assert_eq!(balance_of(&canister, Account::new(bob(), None)), Amount::from(100));
    assert_eq!(balance_of(&canister, Account::new(xtc(), None)), Amount::from(200));
    assert_eq!(balance_of(&canister, Account::new(john(), None)), Amount::from(100));
}

#[test]
fn batch_transfer_insufficient_balance() {
    let mut canister = test_canister();

    let transfer1 = BatchTransferArgs {
        receiver: Account { owner: bob(), subaccount: None },
        amount: Amount::from(500),
    };
    let transfer2 = BatchTransferArgs {
        receiver: Account { owner: john(), subaccount: None },
        amount: Amount::from(600),
    };
    let receipt = batch_transfer(&mut canister, alice(), None, vec![transfer1, transfer2], NOW);
    assert!(receipt.is_err());
    let balance = balance_of(&canister, Account::new(alice(), None));
    assert_eq!(receipt.unwrap_err(), TxError::InsufficientFunds { balance });
    assert_eq!(balance_of(&canister, Account::new(alice(), None)), Amount::from(1000));
    assert_eq!(balance_of(&canister, Account::new(bob(), None)), Amount::from(0));
    assert_eq!(balance_of(&canister, Account::new(john(), None)), Amount::from(0));
}

#[test]
fn transfer_without_fee() {
    let mut canister = test_canister();
    let bob_sub = gen_subaccount();
    assert_eq!(Amount::from(1000), balance_of(&canister, Account::new(alice(), None)));

    assert!(alice_sends_including_fee(&mut canister, bob(), None, Amount::from(100)).is_ok());
    assert_eq!(balance_of(&canister, Account::new(bob(), None)), Amount::from(100));
    assert_eq!(balance_of(&canister, Account::new(alice(), None)), Amount::from(900));

    assert!(
        alice_sends_including_fee(&mut canister, bob(), Some(bob_sub), Amount::from(100)).is_ok()
    );
    assert_eq!(balance_of(&canister, Account::new(bob(), Some(bob_sub))), Amount::from(100));
}

#[test]
fn transfer_with_fee() {
    let bob_sub = gen_subaccount();
    let mut canister = test_canister();
    canister.stats.fee = Amount::from(100);
    canister.stats.fee_to = john();

    assert!(alice_sends_including_fee(&mut canister, bob(), None, Amount::from(200)).is_ok());
    assert_eq!(balance_of(&canister, Account::new(bob(), None)), Amount::from(100));
    assert_eq!(balance_of(&canister, Account::new(alice(), None)), Amount::from(800));
    assert_eq!(balance_of(&canister, Account::new(john(), None)), Amount::from(100));

    assert!(
        alice_sends_including_fee(&mut canister, bob(), Some(bob_sub), Amount::from(150)).is_ok()
    );
    assert_eq!(balance_of(&canister, Account::new(bob(), Some(bob_sub))), Amount::from(50));
}

#[test]
fn transfer_insufficient_balance() {
    let mut canister = test_canister();
    let balance = balance_of(&canister, Account::new(alice(), None));
    assert!(alice_sends_including_fee(&mut canister, bob(), None, Amount::from(1001)).is_err());
    assert_eq!(
        alice_sends_including_fee(&mut canister, bob(), None, Amount::from(1001)),
        Err(TxError::InsufficientFunds { balance })
    );
    assert_eq!(balance_of(&canister, Account::new(alice(), None)), Amount::from(1000));
    assert_eq!(balance_of(&canister, Account::new(bob(), None)), Amount::from(0));
}

#[test]
fn deduplication_error() {
    let mut canister = test_canister();
    fund_alice(&mut canister);
    let curr_time = NOW;

    let transfer = TransferArgs {
        from_subaccount: None,
        to: Account::new(bob(), None),
        amount: 10_000.into(),
        fee: None,
        memo: None,
        created_at_time: Some(curr_time),
    };

    assert!(validate_and_get_tx_ts(&canister, alice(), &transfer, NOW).is_ok());

    let tx_id = is20_transfer(&mut canister, alice(), &transfer, NOW).unwrap();

    assert_eq!(
        validate_and_get_tx_ts(&canister, alice(), &transfer, NOW),
        Err(TxError::Duplicate { duplicate_of: tx_id })
    )
}

#[test]
fn deduplicate_check_pass() {
    let mut canister = test_canister();
    fund_alice(&mut canister);
    let curr_time = NOW;

    let transfer = TransferArgs {
        from_subaccount: None,
        to: Account::new(bob(), None),
        amount: 10_000.into(),
        fee: None,
        memo: None,
        created_at_time: Some(curr_time),
    };

    let _ = is20_transfer(&mut canister, alice(), &transfer, NOW).unwrap();
    assert!(validate_and_get_tx_ts(&canister, john(), &transfer, NOW).is_ok());

    let mut tx = transfer;
    tx.from_subaccount = Some([0; 32]);
    assert!(validate_and_get_tx_ts(&canister, john(), &tx, NOW).is_ok());

    let mut tx = transfer;
    tx.amount = 10_001.into();
    assert!(validate_and_get_tx_ts(&canister, john(), &tx, NOW).is_ok());

    let mut tx = transfer;
    tx.fee = Some(0.into());
    assert!(validate_and_get_tx_ts(&canister, john(), &tx, NOW).is_ok());

    let mut tx = transfer;
    tx.memo = Some([0; 32]);
    assert!(validate_and_get_tx_ts(&canister, john(), &tx, NOW).is_ok());

    let mut tx = transfer;
    tx.created_at_time = None;
    assert!(validate_and_get_tx_ts(&canister, john(), &tx, NOW).is_ok());

    let mut tx = transfer;
    tx.created_at_time = Some(curr_time + 1);
    assert!(validate_and_get_tx_ts(&canister, john(), &tx, NOW).is_ok());

    let transfer = TransferArgs {
        from_subaccount: None,
        to: Account::new(bob(), None),
        amount: 10_000.into(),
        fee: None,
        memo: Some([1; 32]),
        created_at_time: Some(curr_time),
    };

    let _ = is20_transfer(&mut canister, alice(), &transfer, NOW).unwrap();
    assert!(validate_and_get_tx_ts(&canister, john(), &transfer, NOW).is_ok());

    let mut tx = transfer;
    tx.memo = None;
    assert!(validate_and_get_tx_ts(&canister, john(), &tx, NOW).is_ok());

    let mut tx = transfer;
    tx.memo = Some([2; 32]);
    assert!(validate_and_get_tx_ts(&canister, john(), &tx, NOW).is_ok());
}

#[test]
fn deduplicate_check_no_created_at_time() {
    let mut canister = test_canister();
    fund_alice(&mut canister);

    let transfer = TransferArgs {
        from_subaccount: None,
        to: Account::new(bob(), None),
        amount: 10_000.into(),
        fee: None,
        memo: None,
        created_at_time: None,
    };

    let _ = is20_transfer(&mut canister, alice(), &transfer, NOW).unwrap();
    assert!(validate_and_get_tx_ts(&canister, alice(), &transfer, NOW).is_ok());
}
