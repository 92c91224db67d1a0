//! The ledger's state, and the mathematical model that the operations are
//! stated over.

use crate::account::{Account, AccountId, Principal};
use crate::amount::Amount;
use crate::balances::{
    is_balance_map, lemma_total_empty, lemma_total_with_balance, total, with_balance, Balances,
};
use crate::claims::{pending_in, AccountIdentifier, Claims};
use crate::fee::FeeRatio;
use crate::ledger::{Ledger, Operation, TxRecord};
use crate::types::Timestamp;
use vstd::prelude::*;

verus! {

/// The bounds of the replay guard, in nanoseconds.
#[derive(Clone, Copy, Debug)]
pub struct TimeWindow {
    /// The greatest age of an acceptable creation time.
    pub tx_window: Timestamp,
    /// The greatest lead of an acceptable creation time.
    pub permitted_drift: Timestamp,
}

/// The token's configuration, as far as the ledger consults it.
#[derive(Clone, Copy, Debug)]
pub struct StatsData {
    pub owner: Principal,
    /// The flat fee of every transfer.
    pub fee: Amount,
    /// Who receives the owner's share of the fees.
    pub fee_to: Principal,
}

/// What the token is created with.
#[derive(Clone, Copy, Debug)]
pub struct Metadata {
    pub owner: Principal,
    pub fee: Amount,
    pub fee_to: Principal,
    /// The bounds of the replay guard.
    pub window: TimeWindow,
}

/// What the auction tells the ledger.
#[derive(Clone, Copy, Debug)]
pub struct BiddingState {
    /// How each fee is divided between the fee recipient and the auction.
    pub fee_ratio: FeeRatio,
}

/// The ledger as a mathematical value.
pub struct StateView {
    pub balances: Map<AccountId, u128>,
    pub history: Seq<TxRecord>,
    pub claims: Map<Seq<u8>, u128>,
    pub stats: StatsData,
    pub bidding_state: BiddingState,
    pub window: TimeWindow,
}

/// All that the mints of a history have made.
pub open spec fn minted(history: Seq<TxRecord>) -> nat
    decreases history.len(),
{
    if history.len() == 0 {
        0
    } else {
        minted(history.drop_last()) + (if history.last().operation == Operation::Mint {
            history.last().amount.amount as nat
        } else {
            0
        })
    }
}

/// All that the burns of a history have destroyed.
pub open spec fn burned(history: Seq<TxRecord>) -> nat
    decreases history.len(),
{
    if history.len() == 0 {
        0
    } else {
        burned(history.drop_last()) + (if history.last().operation == Operation::Burn {
            history.last().amount.amount as nat
        } else {
            0
        })
    }
}

impl StateView {
    /// The account that receives the owner's share of the fees.
    pub open spec fn fee_to(self) -> AccountId {
        (Account { owner: self.stats.fee_to, subaccount: None })@
    }

    /// The balances are a finite map without a zero.
    pub open spec fn wf(self) -> bool {
        is_balance_map(self.balances)
    }

    /// The balances add up to what was minted less what was burned.
    pub open spec fn conserved(self) -> bool {
        total(self.balances) + burned(self.history) == minted(self.history)
    }
}

/// The ledger's state. Every operation takes it explicitly.
pub struct CanisterState {
    pub balances: Balances,
    pub ledger: Ledger,
    pub claims: Claims,
    pub stats: StatsData,
    pub bidding_state: BiddingState,
    pub window: TimeWindow,
}

impl View for CanisterState {
    type V = StateView;

    open spec fn view(&self) -> StateView {
        StateView {
            balances: self.balances@,
            history: self.ledger@,
            claims: self.claims@,
            stats: self.stats,
            bidding_state: self.bidding_state,
            window: self.window,
        }
    }
}

/// The state that a token starts in: the owner holds the initial supply, the
/// history holds the mint that made it, and nothing is claimed.
pub open spec fn initial_state(
    metadata: Metadata,
    amount: Amount,
    now: Timestamp,
    fee_ratio: FeeRatio,
) -> StateView {
    let owner = Account { owner: metadata.owner, subaccount: None };
    StateView {
        balances: with_balance(Map::empty(), owner@, amount.amount),
        history: seq![TxRecord::spec_mint(0, owner, owner, amount, now)],
        claims: Map::empty(),
        stats: StatsData { owner: metadata.owner, fee: metadata.fee, fee_to: metadata.fee_to },
        bidding_state: BiddingState { fee_ratio },
        window: metadata.window,
    }
}

impl CanisterState {
    /// The state's invariant: that of each of its parts.
    pub open spec fn wf(&self) -> bool {
        self.balances.wf() && self.ledger.wf() && self.claims.wf()
    }

    /// Creates the token: the owner holds the initial supply, and the history
    /// opens with the mint that made it.
    pub fn init(metadata: Metadata, amount: Amount, now: Timestamp) -> (state: CanisterState)
        ensures
            state.wf(),
            state@ == initial_state(metadata, amount, now, state.bidding_state.fee_ratio),
            state.bidding_state.fee_ratio.auction_parts() == 0,
            state.bidding_state.fee_ratio.total_parts() == 1,
            state@.conserved(),
    {
        let owner = Account::of_owner(metadata.owner);
        let mut balances = Balances::new();
        balances.set_balance(owner, amount);
        let mut ledger = Ledger::new();
        ledger.mint(owner, owner, amount, now);
        let state = CanisterState {
            balances,
            ledger,
            claims: Claims::new(),
            stats: StatsData { owner: metadata.owner, fee: metadata.fee, fee_to: metadata.fee_to },
            bidding_state: BiddingState { fee_ratio: FeeRatio::all_to_owner() },
            window: metadata.window,
        };
        proof {
            lemma_total_empty();
            lemma_total_with_balance(Map::empty(), owner@, amount.amount);
            let history = state@.history;
            assert(history =~= seq![TxRecord::spec_mint(0, owner, owner, amount, now)]);
            assert(history.drop_last() =~= Seq::<TxRecord>::empty());
            assert(minted(history.drop_last()) == 0);
            assert(burned(history.drop_last()) == 0);
            assert(state@.balances =~= with_balance(Map::empty(), owner@, amount.amount));
        }
        state
    }

    /// The flat fee and who receives the owner's share of it.
    pub fn fee_info(&self) -> (r: (Amount, Principal))
        ensures
            r.0 == self.stats.fee,
            r.1 == self.stats.fee_to,
    {
        (self.stats.fee, self.stats.fee_to)
    }

    /// What waits under a legacy identifier; zero where nothing is listed.
    pub fn claim_amount(&self, account: AccountIdentifier) -> (r: Amount)
        requires
            self.wf(),
        ensures
            r.amount == pending_in(self@.claims, account.bytes@),
    {
        match self.claims.get(&account) {
            Some(amount) => amount,
            None => Amount::zero(),
        }
    }
}

} // verus!
