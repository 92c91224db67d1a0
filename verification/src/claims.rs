//! Claims: amounts that wait under a legacy account identifier until the
//! owner of that identifier redeems them.

use crate::account::{bytes32_eq, Principal, Subaccount};
use crate::amount::Amount;
use crate::table::{Keyed, Table};
use vstd::prelude::*;

verus! {

/// An account identifier of the legacy addressing scheme: thirty-two bytes
/// derived from an owner and a subaccount.
#[derive(Clone, Copy, Debug)]
pub struct AccountIdentifier {
    pub bytes: [u8; 32],
}

impl Keyed for AccountIdentifier {
    type Id = Seq<u8>;

    open spec fn id(&self) -> Seq<u8> {
        self.bytes@
    }

    fn same(&self, other: &AccountIdentifier) -> (r: bool) {
        bytes32_eq(&self.bytes, &other.bytes)
    }
}

/// The bytes of the legacy account identifier of an owner's subaccount.
pub uninterp spec fn legacy_account_id(owner: Seq<u8>, subaccount: Seq<u8>) -> Seq<u8>;

/// Derives the legacy account identifier of an owner's subaccount with
/// `ic_ledger_types::AccountIdentifier::new`. Trusted: the identifier is a
/// function of the owner's bytes and the subaccount's bytes alone (a checksum
/// in front of a hash of the two), which is all that the contract claims.
#[verifier::external_body]
pub(crate) fn derive_account_id(owner: &Principal, subaccount: &Subaccount) -> (id:
    AccountIdentifier)
    ensures
        id.bytes@ == legacy_account_id(owner@, subaccount@),
{
    let principal = candid::Principal::from_slice(&owner.bytes[..owner.len as usize]);
    let subaccount = ic_ledger_types::Subaccount(*subaccount);
    let id = ic_ledger_types::AccountIdentifier::new(&principal, &subaccount);
    AccountIdentifier { bytes: *id.as_bytes() }
}

/// What waits under a legacy identifier in a map of claims: zero where the
/// map does not list it.
pub open spec fn pending_in(claims: Map<Seq<u8>, u128>, id: Seq<u8>) -> u128 {
    if claims.dom().contains(id) {
        claims[id]
    } else {
        0
    }
}

/// The pending claims.
pub struct Claims {
    table: Table<AccountIdentifier>,
}

impl View for Claims {
    type V = Map<Seq<u8>, u128>;

    closed spec fn view(&self) -> Map<Seq<u8>, u128> {
        self.table@
    }
}

impl Claims {
    /// No identifier is listed twice.
    pub closed spec fn wf(&self) -> bool {
        self.table.wf()
    }

    pub fn new() -> (c: Claims)
        ensures
            c.wf(),
            c@ == Map::<Seq<u8>, u128>::empty(),
    {
        Claims { table: Table::new() }
    }

    /// What waits under an identifier, if anything is listed under it.
    pub fn get(&self, id: &AccountIdentifier) -> (r: Option<Amount>)
        requires
            self.wf(),
        ensures
            r == (if self@.dom().contains(id.bytes@) {
                Some(Amount { amount: self@[id.bytes@] })
            } else {
                None
            }),
    {
        self.table.get(id)
    }

    /// Lists an amount under an identifier, in place of what was there.
    pub fn set(&mut self, id: AccountIdentifier, amount: Amount)
        requires
            old(self).wf(),
        ensures
            final(self).wf(),
            final(self)@ == old(self)@.insert(id.bytes@, amount.amount),
    {
        self.table.insert(id, amount);
    }

    /// Stops listing an identifier.
    pub fn remove(&mut self, id: &AccountIdentifier)
        requires
            old(self).wf(),
        ensures
            final(self).wf(),
            final(self)@ == old(self)@.remove(id.bytes@),
    {
        self.table.remove(id);
    }
}

} // verus!
