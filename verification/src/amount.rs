//! Token quantities: 128-bit unsigned values whose arithmetic never wraps.

use vstd::prelude::*;

verus! {

/// A non-negative token quantity. Zero is a valid quantity.
#[derive(Clone, Copy, Debug, PartialEq, Eq, Structural)]
pub struct Amount {
    pub amount: u128,
}

impl Amount {
    pub fn new(amount: u128) -> (r: Amount)
        ensures
            r.amount == amount,
    {
        Amount { amount }
    }

    pub fn zero() -> (r: Amount)
        ensures
            r.amount == 0,
    {
        Amount { amount: 0 }
    }

    pub fn is_zero(&self) -> (r: bool)
        ensures
            r == (self.amount == 0),
    {
        self.amount == 0
    }

    /// The sum of two quantities, where it fits.
    pub open spec fn spec_checked_add(self, other: Amount) -> Option<Amount> {
        if self.amount + other.amount <= u128::MAX {
            Some(Amount { amount: (self.amount + other.amount) as u128 })
        } else {
            None
        }
    }

    /// The difference of two quantities, where it is not negative.
    pub open spec fn spec_checked_sub(self, other: Amount) -> Option<Amount> {
        if other.amount <= self.amount {
            Some(Amount { amount: (self.amount - other.amount) as u128 })
        } else {
            None
        }
    }

    /// Adds without wrapping: `None` exactly when the sum exceeds 128 bits.
    pub fn checked_add(self, other: Amount) -> (r: Option<Amount>)
        ensures
            r == self.spec_checked_add(other),
    {
        if other.amount <= u128::MAX - self.amount {
            Some(Amount { amount: self.amount + other.amount })
        } else {
            None
        }
    }

    /// Subtracts without wrapping: `None` exactly when `other` is the larger.
    pub fn checked_sub(self, other: Amount) -> (r: Option<Amount>)
        ensures
            r == self.spec_checked_sub(other),
    {
        if other.amount <= self.amount {
            Some(Amount { amount: self.amount - other.amount })
        } else {
            None
        }
    }
}

impl From<u128> for Amount {
    fn from(amount: u128) -> (r: Amount) {
        Amount { amount }
    }
}

impl vstd::std_specs::convert::FromSpecImpl<u128> for Amount {
    open spec fn obeys_from_spec() -> bool {
        true
    }

    open spec fn from_spec(amount: u128) -> Amount {
        Amount { amount }
    }
}

} // verus!
