//! The balances store: a map from accounts to the amounts they hold.
//!
//! An account that the store does not list holds zero, and the store never
//! lists an account with zero: it grows with the funded accounts only. The
//! arithmetic of the ledger is stated over the map that the store stands for.

use crate::account::{Account, AccountId};
use crate::amount::Amount;
use crate::table::{entries_map, Table};
use vstd::prelude::*;

verus! {

/// What an account holds in a balance map: zero where the map does not list it.
pub open spec fn balance_in(m: Map<AccountId, u128>, k: AccountId) -> u128 {
    if m.dom().contains(k) {
        m[k]
    } else {
        0
    }
}

/// The balance map in which `k` holds `v` and every other account holds what
/// it held in `m`. A zero is not listed.
pub open spec fn with_balance(m: Map<AccountId, u128>, k: AccountId, v: u128) -> Map<
    AccountId,
    u128,
> {
    if v == 0 {
        m.remove(k)
    } else {
        m.insert(k, v)
    }
}

/// No listed account holds zero.
pub open spec fn no_zero(m: Map<AccountId, u128>) -> bool {
    forall|k: AccountId| #[trigger] m.dom().contains(k) ==> m[k] != 0
}

/// A balance map as the store keeps them: finitely many accounts, none at zero.
pub open spec fn is_balance_map(m: Map<AccountId, u128>) -> bool {
    m.dom().finite() && no_zero(m)
}

/// The balance map `base` after the amounts that `updates` lists have been
/// written into it, each under its account.
pub open spec fn overlay(base: Map<AccountId, u128>, updates: Map<AccountId, u128>) -> Map<
    AccountId,
    u128,
> {
    Map::new(
        |k: AccountId|
            if updates.dom().contains(k) {
                updates[k] != 0
            } else {
                base.dom().contains(k)
            },
        |k: AccountId|
            if updates.dom().contains(k) {
                updates[k]
            } else {
                base[k]
            },
    )
}

/// The sum of all that a balance map lists.
pub closed spec fn total(m: Map<AccountId, u128>) -> nat
    decreases m.dom().len(),
    when m.dom().finite()
{
    if m.dom().len() == 0 {
        0
    } else {
        let k = m.dom().choose();
        m[k] as nat + total(m.remove(k))
    }
}

pub proof fn lemma_total_empty()
    ensures
        total(Map::<AccountId, u128>::empty()) == 0,
{
}

/// The total is what one listed account holds plus the total of the rest.
pub proof fn lemma_total_remove(m: Map<AccountId, u128>, k: AccountId)
    requires
        m.dom().finite(),
        m.dom().contains(k),
    ensures
        total(m) == m[k] + total(m.remove(k)),
    decreases m.dom().len(),
{
    let c = m.dom().choose();
    if c != k {
        lemma_total_remove(m.remove(c), k);
        lemma_total_remove(m.remove(k), c);
        assert(m.remove(c).remove(k) =~= m.remove(k).remove(c));
    }
}

/// Writing one balance changes the total by the difference.
pub proof fn lemma_total_with_balance(m: Map<AccountId, u128>, k: AccountId, v: u128)
    requires
        m.dom().finite(),
    ensures
        with_balance(m, k, v).dom().finite(),
        total(with_balance(m, k, v)) == total(m) - balance_in(m, k) + v,
{
    let n = with_balance(m, k, v);
    if m.dom().contains(k) {
        lemma_total_remove(m, k);
    } else {
        assert(m.remove(k) =~= m);
    }
    if v != 0 {
        lemma_total_remove(n, k);
        assert(n.remove(k) =~= m.remove(k));
    }
}

/// Writing a listed update into the overlay is listing it among the updates.
pub proof fn lemma_overlay_insert(
    base: Map<AccountId, u128>,
    updates: Map<AccountId, u128>,
    k: AccountId,
    v: u128,
)
    ensures
        overlay(base, updates.insert(k, v)) == with_balance(overlay(base, updates), k, v),
{
    assert(overlay(base, updates.insert(k, v)) =~= with_balance(overlay(base, updates), k, v));
}

/// Updates that repeat what the base holds change nothing.
pub proof fn lemma_overlay_neutral(base: Map<AccountId, u128>, updates: Map<AccountId, u128>)
    requires
        no_zero(base),
        forall|k: AccountId| #[trigger]
            updates.dom().contains(k) ==> updates[k] == balance_in(base, k),
    ensures
        overlay(base, updates) == base,
{
    assert(overlay(base, updates) =~= base);
}

/// The balances store.
pub struct Balances {
    table: Table<Account>,
}

impl View for Balances {
    type V = Map<AccountId, u128>;

    closed spec fn view(&self) -> Map<AccountId, u128> {
        self.table@
    }
}

impl Balances {
    /// The store lists no account twice.
    pub closed spec fn listed_once(&self) -> bool {
        self.table.wf()
    }

    /// The store's invariant: no account is listed twice, and none at zero.
    pub open spec fn wf(&self) -> bool {
        self.listed_once() && is_balance_map(self@)
    }

    /// The sum of all balances.
    pub open spec fn total(&self) -> nat {
        total(self@)
    }

    pub fn new() -> (b: Balances)
        ensures
            b.wf(),
            b@ == Map::<AccountId, u128>::empty(),
    {
        Balances { table: Table::new() }
    }

    /// How many accounts the store lists: those that hold something.
    pub fn len(&self) -> (n: usize)
        requires
            self.wf(),
        ensures
            n == self@.dom().len(),
    {
        self.table.len()
    }

    /// What an account holds; zero where the store does not list it.
    pub fn balance_of(&self, account: Account) -> (r: Amount)
        requires
            self.wf(),
        ensures
            r.amount == balance_in(self@, account@),
    {
        match self.table.get(&account) {
            Some(amount) => amount,
            None => Amount::zero(),
        }
    }

    /// Makes an account hold an amount; at zero the store stops listing it.
    pub fn set_balance(&mut self, account: Account, amount: Amount)
        requires
            old(self).wf(),
        ensures
            final(self).wf(),
            final(self)@ == with_balance(old(self)@, account@, amount.amount),
    {
        if amount.is_zero() {
            self.table.remove(&account);
        } else {
            self.table.insert(account, amount);
        }
    }

    /// Stops listing an account, which then holds zero.
    pub fn remove(&mut self, account: Account)
        requires
            old(self).wf(),
        ensures
            final(self).wf(),
            final(self)@ == old(self)@.remove(account@),
    {
        self.table.remove(&account);
    }

    /// Writes every listed update into the store, entry by entry.
    pub fn apply_change(&mut self, updates: &Table<Account>)
        requires
            old(self).wf(),
        ensures
            final(self).wf(),
            final(self)@ == overlay(old(self)@, updates@),
    {
        let n = updates.len();
        let mut i: usize = 0;
        proof {
            assert(updates.entries().take(0) =~= Seq::empty());
            assert(overlay(self@, Map::empty()) =~= self@);
        }
        while i < n
            invariant
                n == updates.entries().len(),
                i <= n,
                self.wf(),
                self@ == overlay(old(self)@, entries_map(updates.entries().take(i as int))),
            decreases n - i,
        {
            let e = updates.entry(i);
            proof {
                let done = updates.entries().take(i as int);
                let next = updates.entries().take(i + 1);
                assert(next.drop_last() =~= done);
                assert(next.last() == e);
                lemma_overlay_insert(old(self)@, entries_map(done), e.key@, e.amount.amount);
            }
            self.set_balance(e.key, e.amount);
            i += 1;
        }
        proof {
            assert(updates.entries().take(n as int) =~= updates.entries());
        }
    }
}

/// What crediting `v` to `k` makes of a balance map; `None` where the account
/// would hold more than 128 bits.
pub open spec fn credited(m: Map<AccountId, u128>, k: AccountId, v: u128) -> Option<
    Map<AccountId, u128>,
> {
    if balance_in(m, k) + v <= u128::MAX {
        Some(with_balance(m, k, (balance_in(m, k) + v) as u128))
    } else {
        None
    }
}

/// What debiting `v` from `k` makes of a balance map; `None` where the account
/// holds less.
pub open spec fn debited(m: Map<AccountId, u128>, k: AccountId, v: nat) -> Option<
    Map<AccountId, u128>,
> {
    if v <= balance_in(m, k) {
        Some(with_balance(m, k, (balance_in(m, k) - v) as u128))
    } else {
        None
    }
}

/// A credit adds its amount to the total.
pub proof fn lemma_credited(m: Map<AccountId, u128>, k: AccountId, v: u128)
    requires
        is_balance_map(m),
        credited(m, k, v) is Some,
    ensures
        is_balance_map(credited(m, k, v).unwrap()),
        total(credited(m, k, v).unwrap()) == total(m) + v,
{
    lemma_total_with_balance(m, k, (balance_in(m, k) + v) as u128);
}

/// A debit takes its amount from the total.
pub proof fn lemma_debited(m: Map<AccountId, u128>, k: AccountId, v: nat)
    requires
        is_balance_map(m),
        debited(m, k, v) is Some,
    ensures
        is_balance_map(debited(m, k, v).unwrap()),
        total(debited(m, k, v).unwrap()) == total(m) - v,
{
    lemma_total_with_balance(m, k, (balance_in(m, k) - v) as u128);
}

} // verus!
