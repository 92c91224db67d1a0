//! A small partial map from keys to amounts, kept as a list of entries.
//!
//! Keys are compared by the identity that [`Keyed::id`] gives them, and no two
//! entries of a well-formed table have the same identity.

use crate::amount::Amount;
use vstd::prelude::*;

verus! {

/// A key with an identity by which it is found again.
pub trait Keyed: Copy {
    type Id;

    /// What the key identifies.
    spec fn id(&self) -> Self::Id;

    /// Whether two keys identify the same thing.
    fn same(&self, other: &Self) -> (r: bool)
        ensures
            r == (self.id() == other.id()),
    ;
}

/// One key with its amount.
pub struct Entry<K> {
    pub key: K,
    pub amount: Amount,
}

impl<K: Copy> Clone for Entry<K> {
    fn clone(&self) -> (r: Self)
        ensures
            r == *self,
    {
        *self
    }
}

impl<K: Copy> Copy for Entry<K> {

}

/// The map that a list of entries stands for; a later entry overrides an
/// earlier one with the same identity.
pub open spec fn entries_map<K: Keyed>(s: Seq<Entry<K>>) -> Map<K::Id, u128>
    decreases s.len(),
{
    if s.len() == 0 {
        Map::empty()
    } else {
        entries_map(s.drop_last()).insert(s.last().key.id(), s.last().amount.amount)
    }
}

/// No two entries have the same identity.
pub open spec fn distinct_keys<K: Keyed>(s: Seq<Entry<K>>) -> bool {
    forall|i: int, j: int| 0 <= i < j < s.len() ==> s[i].key.id() != s[j].key.id()
}

pub proof fn lemma_entries_map_finite<K: Keyed>(s: Seq<Entry<K>>)
    ensures
        entries_map(s).dom().finite(),
    decreases s.len(),
{
    if s.len() > 0 {
        lemma_entries_map_finite(s.drop_last());
    }
}

/// A key that no entry has is not in the map.
pub proof fn lemma_entries_map_absent<K: Keyed>(s: Seq<Entry<K>>, k: K::Id)
    requires
        forall|j: int| 0 <= j < s.len() ==> s[j].key.id() != k,
    ensures
        !entries_map(s).dom().contains(k),
    decreases s.len(),
{
    if s.len() > 0 {
        lemma_entries_map_absent(s.drop_last(), k);
    }
}

/// With distinct keys, the map holds each entry's amount under its key.
pub proof fn lemma_entries_map_present<K: Keyed>(s: Seq<Entry<K>>, i: int)
    requires
        distinct_keys(s),
        0 <= i < s.len(),
    ensures
        entries_map(s).dom().contains(s[i].key.id()),
        entries_map(s)[s[i].key.id()] == s[i].amount.amount,
    decreases s.len(),
{
    if i < s.len() - 1 {
        lemma_entries_map_present(s.drop_last(), i);
    }
}

/// With distinct keys, the map lists as many keys as there are entries.
pub proof fn lemma_entries_map_len<K: Keyed>(s: Seq<Entry<K>>)
    requires
        distinct_keys(s),
    ensures
        entries_map(s).dom().finite(),
        entries_map(s).dom().len() == s.len(),
    decreases s.len(),
{
    lemma_entries_map_finite(s);
    if s.len() > 0 {
        lemma_entries_map_len(s.drop_last());
        lemma_entries_map_finite(s.drop_last());
        lemma_entries_map_absent(s.drop_last(), s.last().key.id());
    }
}

/// Replacing the amount of one entry replaces it in the map.
pub proof fn lemma_entries_map_update<K: Keyed>(s: Seq<Entry<K>>, i: int, e: Entry<K>)
    requires
        distinct_keys(s),
        0 <= i < s.len(),
        e.key.id() == s[i].key.id(),
    ensures
        entries_map(s.update(i, e)) == entries_map(s).insert(e.key.id(), e.amount.amount),
        distinct_keys(s.update(i, e)),
    decreases s.len(),
{
    let t = s.update(i, e);
    if i == s.len() - 1 {
        assert(t.drop_last() =~= s.drop_last());
        assert(entries_map(t) =~= entries_map(s).insert(e.key.id(), e.amount.amount));
    } else {
        lemma_entries_map_update(s.drop_last(), i, e);
        assert(t.drop_last() =~= s.drop_last().update(i, e));
        assert(t.last() == s.last());
        assert(s.last().key.id() != s[i].key.id());
        assert(entries_map(t) =~= entries_map(s).insert(e.key.id(), e.amount.amount));
    }
}

/// Taking one entry out takes its key out of the map.
pub proof fn lemma_entries_map_remove<K: Keyed>(s: Seq<Entry<K>>, i: int)
    requires
        distinct_keys(s),
        0 <= i < s.len(),
    ensures
        entries_map(s.remove(i)) == entries_map(s).remove(s[i].key.id()),
        distinct_keys(s.remove(i)),
    decreases s.len(),
{
    let t = s.remove(i);
    let k = s[i].key.id();
    if i == s.len() - 1 {
        assert(t =~= s.drop_last());
        lemma_entries_map_absent(s.drop_last(), k);
        assert(entries_map(t) =~= entries_map(s).remove(k));
    } else {
        lemma_entries_map_remove(s.drop_last(), i);
        assert(t.drop_last() =~= s.drop_last().remove(i));
        assert(t.last() == s.last());
        assert(s.last().key.id() != k);
        assert(entries_map(t) =~= entries_map(s).remove(k));
    }
}

/// A partial map from keys to amounts.
pub struct Table<K: Keyed> {
    entries: Vec<Entry<K>>,
}

impl<K: Keyed> Table<K> {
    /// The entries, in the order in which their keys first came in.
    pub closed spec fn entries(&self) -> Seq<Entry<K>> {
        self.entries@
    }

    /// No key occurs twice.
    pub open spec fn wf(&self) -> bool {
        distinct_keys(self.entries())
    }

    /// The map that the table holds.
    pub open spec fn view(&self) -> Map<K::Id, u128> {
        entries_map(self.entries())
    }

    pub fn new() -> (t: Self)
        ensures
            t.wf(),
            t.entries() == Seq::<Entry<K>>::empty(),
            t@ == Map::<K::Id, u128>::empty(),
    {
        Table { entries: Vec::new() }
    }

    /// How many entries the table holds.
    pub fn len(&self) -> (n: usize)
        ensures
            n == self.entries().len(),
            self.wf() ==> n == self@.dom().len(),
    {
        proof {
            if self.wf() {
                lemma_entries_map_len(self.entries@);
            }
        }
        self.entries.len()
    }

    /// The entry at a position.
    pub fn entry(&self, i: usize) -> (e: Entry<K>)
        requires
            i < self.entries().len(),
        ensures
            e == self.entries()[i as int],
    {
        self.entries[i]
    }

    /// The position of the entry with the given key, if there is one.
    fn position(&self, key: &K) -> (r: Option<usize>)
        requires
            self.wf(),
        ensures
            match r {
                Some(i) => i < self.entries().len() && self.entries()[i as int].key.id()
                    == key.id(),
                None => forall|j: int|
                    0 <= j < self.entries().len() ==> self.entries()[j].key.id() != key.id(),
            },
    {
        let mut i: usize = 0;
        while i < self.entries.len()
            invariant
                i <= self.entries@.len(),
                forall|j: int| 0 <= j < i ==> self.entries@[j].key.id() != key.id(),
            decreases self.entries@.len() - i,
        {
            if self.entries[i].key.same(key) {
                return Some(i);
            }
            i += 1;
        }
        None
    }

    /// The amount under a key, if the key is there.
    pub fn get(&self, key: &K) -> (r: Option<Amount>)
        requires
            self.wf(),
        ensures
            r == (if self@.dom().contains(key.id()) {
                Some(Amount { amount: self@[key.id()] })
            } else {
                None
            }),
    {
        match self.position(key) {
            Some(i) => {
                proof {
                    lemma_entries_map_present(self.entries@, i as int);
                }
                Some(self.entries[i].amount)
            },
            None => {
                proof {
                    lemma_entries_map_absent(self.entries@, key.id());
                }
                None
            },
        }
    }

    /// Puts an amount under a key, in place of the one that was there.
    pub fn insert(&mut self, key: K, amount: Amount)
        requires
            old(self).wf(),
        ensures
            final(self).wf(),
            final(self)@ == old(self)@.insert(key.id(), amount.amount),
    {
        let entry = Entry { key, amount };
        match self.position(&key) {
            Some(i) => {
                proof {
                    lemma_entries_map_update(self.entries@, i as int, entry);
                }
                self.entries.set(i, entry);
            },
            None => {
                assert(self.entries@.push(entry).drop_last() =~= self.entries@);
                self.entries.push(entry);
            },
        }
    }

    /// Takes a key out, if it is there.
    pub fn remove(&mut self, key: &K)
        requires
            old(self).wf(),
        ensures
            final(self).wf(),
            final(self)@ == old(self)@.remove(key.id()),
    {
        match self.position(key) {
            Some(i) => {
                proof {
                    lemma_entries_map_remove(self.entries@, i as int);
                }
                self.entries.remove(i);
            },
            None => {
                proof {
                    lemma_entries_map_absent(self.entries@, key.id());
                }
                assert(self@.remove(key.id()) =~= self@);
            },
        }
    }
}

} // verus!
