//! Identities: owners, subaccounts, and the accounts they form.
//!
//! An account is an owner together with a subaccount. An absent subaccount and
//! the all-zero subaccount name the same account: every comparison and every
//! lookup goes through [`Account::view`], which maps both to the zero bytes.

use crate::table::Keyed;
use vstd::prelude::*;

verus! {

/// The longest owner identifier, in bytes.
pub const MAX_PRINCIPAL_LEN: usize = 29;

/// An opaque owner identifier: at most [`MAX_PRINCIPAL_LEN`] bytes.
#[derive(Clone, Copy, Debug)]
pub struct Principal {
    pub(crate) len: u8,
    pub(crate) bytes: [u8; 29],
}

impl View for Principal {
    type V = Seq<u8>;

    /// The significant bytes.
    closed spec fn view(&self) -> Seq<u8> {
        self.bytes@.subrange(0, self.len as int)
    }
}

impl Principal {
    #[verifier::type_invariant]
    spec fn inv(self) -> bool {
        self.len <= 29
    }

    /// The principal of the management canister: no bytes at all.
    pub fn management_canister() -> (p: Principal)
        ensures
            p@ == Seq::<u8>::empty(),
    {
        let p = Principal { len: 0, bytes: [0u8; 29] };
        assert(p@ =~= Seq::<u8>::empty());
        p
    }

    /// The principal with the given bytes, if they are few enough.
    pub fn try_from_slice(bytes: &[u8]) -> (r: Option<Principal>)
        ensures
            r is Some <==> bytes@.len() <= MAX_PRINCIPAL_LEN,
            r matches Some(p) ==> p@ == bytes@,
    {
        let n = bytes.len();
        if n > MAX_PRINCIPAL_LEN {
            return None;
        }
        let mut buf = [0u8; 29];
        let mut i: usize = 0;
        while i < n
            invariant
                n == bytes@.len(),
                n <= 29,
                i <= n,
                forall|j: int| 0 <= j < i ==> buf@[j] == bytes@[j],
            decreases n - i,
        {
            buf[i] = bytes[i];
            i += 1;
        }
        let p = Principal { len: n as u8, bytes: buf };
        assert(p@ =~= bytes@);
        Some(p)
    }

    /// The significant bytes, copied out.
    pub fn to_vec(&self) -> (v: Vec<u8>)
        ensures
            v@ == self@,
    {
        proof {
            use_type_invariant(self);
        }
        let mut v: Vec<u8> = Vec::new();
        let mut i: usize = 0;
        while i < self.len as usize
            invariant
                self.len <= 29,
                i <= self.len,
                v@.len() == i,
                forall|j: int| 0 <= j < i ==> v@[j] == self.bytes@[j],
            decreases self.len - i,
        {
            v.push(self.bytes[i]);
            i += 1;
        }
        assert(v@ =~= self@);
        v
    }

    /// Whether two principals have the same bytes.
    pub fn same(&self, other: &Principal) -> (r: bool)
        ensures
            r == (self@ == other@),
    {
        proof {
            use_type_invariant(self);
            use_type_invariant(other);
        }
        if self.len != other.len {
            assert(self@.len() != other@.len());
            return false;
        }
        let mut i: usize = 0;
        while i < self.len as usize
            invariant
                self.len == other.len,
                self.len <= 29,
                i <= self.len,
                forall|j: int| 0 <= j < i ==> self.bytes@[j] == other.bytes@[j],
            decreases self.len - i,
        {
            if self.bytes[i] != other.bytes[i] {
                assert(self@[i as int] != other@[i as int]);
                return false;
            }
            i += 1;
        }
        assert(self@ =~= other@);
        true
    }
}

/// Thirty-two bytes that tell one owner's accounts apart.
pub type Subaccount = [u8; 32];

/// The subaccount that an account without one has: thirty-two zero bytes.
pub open spec fn default_subaccount() -> Seq<u8> {
    Seq::new(32, |i: int| 0u8)
}

/// The bytes that stand for an optional subaccount.
pub open spec fn subaccount_bytes(subaccount: Option<Subaccount>) -> Seq<u8> {
    match subaccount {
        Some(bytes) => bytes@,
        None => default_subaccount(),
    }
}

/// The thirty-two bytes that an optional subaccount stands for.
pub fn effective_subaccount(subaccount: &Option<Subaccount>) -> (r: Subaccount)
    ensures
        r@ == subaccount_bytes(*subaccount),
{
    match subaccount {
        Some(bytes) => *bytes,
        None => {
            let mut zero = [0u8; 32];
            let mut i: usize = 0;
            while i < 32
                invariant
                    i <= 32,
                    forall|j: int| 0 <= j < i ==> zero@[j] == 0u8,
                decreases 32 - i,
            {
                zero[i] = 0;
                i += 1;
            }
            assert(zero@ =~= default_subaccount());
            zero
        },
    }
}

/// Whether two blocks of thirty-two bytes are equal.
pub fn bytes32_eq(a: &[u8; 32], b: &[u8; 32]) -> (r: bool)
    ensures
        r == (a@ == b@),
        r == (*a == *b),
{
    let mut i: usize = 0;
    while i < 32
        invariant
            i <= 32,
            forall|j: int| 0 <= j < i ==> a@[j] == b@[j],
        decreases 32 - i,
    {
        if a[i] != b[i] {
            assert(a@[i as int] != b@[i as int]);
            return false;
        }
        i += 1;
    }
    assert(a@ =~= b@);
    assert(*a =~= *b);
    true
}

/// What identifies an account: the owner's bytes and the subaccount's.
pub struct AccountId {
    pub owner: Seq<u8>,
    pub subaccount: Seq<u8>,
}

/// The ledger's addressing unit.
#[derive(Clone, Copy, Debug)]
pub struct Account {
    pub owner: Principal,
    pub subaccount: Option<Subaccount>,
}

impl View for Account {
    type V = AccountId;

    open spec fn view(&self) -> AccountId {
        AccountId { owner: self.owner@, subaccount: subaccount_bytes(self.subaccount) }
    }
}

impl Account {
    pub fn new(owner: Principal, subaccount: Option<Subaccount>) -> (a: Account)
        ensures
            a == (Account { owner, subaccount }),
    {
        Account { owner, subaccount }
    }

    /// The owner's account without a subaccount.
    pub fn of_owner(owner: Principal) -> (a: Account)
        ensures
            a == (Account { owner, subaccount: None }),
    {
        Account { owner, subaccount: None }
    }

    /// Whether two accounts are the same account: the same owner, and the
    /// same subaccount once an absent one is read as the default.
    pub fn same(&self, other: &Account) -> (r: bool)
        ensures
            r == (self@ == other@),
    {
        if !self.owner.same(&other.owner) {
            return false;
        }
        let a = effective_subaccount(&self.subaccount);
        let b = effective_subaccount(&other.subaccount);
        bytes32_eq(&a, &b)
    }
}

impl Keyed for Account {
    type Id = AccountId;

    open spec fn id(&self) -> AccountId {
        self@
    }

    fn same(&self, other: &Account) -> (r: bool) {
        Account::same(self, other)
    }
}

/// The identity of the reserved account in which the auction's share of the
/// fees is held: the management canister, without a subaccount.
pub open spec fn auction_account_id() -> AccountId {
    AccountId { owner: Seq::<u8>::empty(), subaccount: default_subaccount() }
}

/// The reserved account in which the auction's share of the fees is held.
pub fn auction_account() -> (a: Account)
    ensures
        a@ == auction_account_id(),
{
    Account { owner: Principal::management_canister(), subaccount: None }
}

} // verus!
