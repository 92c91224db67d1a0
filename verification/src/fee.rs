//! How a collected fee is divided between the fee recipient and the auction.

use crate::amount::Amount;
use vstd::arithmetic::div_mod::{
    lemma_div_by_multiple, lemma_div_is_ordered, lemma_fundamental_div_mod,
    lemma_hoist_over_denominator,
};
use vstd::prelude::*;

verus! {

/// The auction's part of every fee, as `auction_parts` out of `total_parts`.
/// The fee recipient gets the rest, and with it whatever rounding leaves over.
#[derive(Clone, Copy, Debug)]
pub struct FeeRatio {
    auction_parts: u64,
    total_parts: u64,
}

impl FeeRatio {
    #[verifier::type_invariant]
    spec fn inv(self) -> bool {
        self.valid()
    }

    pub closed spec fn auction_parts(self) -> nat {
        self.auction_parts as nat
    }

    pub closed spec fn total_parts(self) -> nat {
        self.total_parts as nat
    }

    /// A ratio is a part of a whole: the whole is not zero, and the part is not
    /// more than the whole. Every ratio that executable code holds is valid.
    pub open spec fn valid(self) -> bool {
        0 < self.total_parts() && self.auction_parts() <= self.total_parts()
    }

    /// The auction's share of a fee, rounded down.
    pub open spec fn auction_share(self, fee: u128) -> nat {
        if self.valid() {
            ((fee * self.auction_parts()) / (self.total_parts() as int)) as nat
        } else {
            0
        }
    }

    /// The fee recipient's share of a fee: all that the auction does not get.
    pub open spec fn owner_share(self, fee: u128) -> nat {
        (fee - self.auction_share(fee)) as nat
    }

    /// The auction's share is never more than the fee, so the two shares are
    /// amounts and add up to the fee exactly.
    pub proof fn lemma_shares(self, fee: u128)
        ensures
            self.auction_share(fee) <= fee,
            self.owner_share(fee) + self.auction_share(fee) == fee,
    {
        if self.valid() {
            let a = self.auction_parts() as int;
            let t = self.total_parts() as int;
            assert(fee * a <= fee * t) by (nonlinear_arith)
                requires
                    0 <= a <= t,
                    0 <= fee,
            ;
            lemma_div_is_ordered(fee * a, fee * t, t);
            lemma_div_by_multiple(fee as int, t);
        }
    }

    /// The ratio of `auction_parts` to `total_parts`, where that is a ratio.
    pub fn new(auction_parts: u64, total_parts: u64) -> (r: Option<FeeRatio>)
        ensures
            r is Some <==> 0 < total_parts && auction_parts <= total_parts,
            r matches Some(ratio) ==> ratio.auction_parts() == auction_parts
                && ratio.total_parts() == total_parts && ratio.valid(),
    {
        if 0 < total_parts && auction_parts <= total_parts {
            Some(FeeRatio { auction_parts, total_parts })
        } else {
            None
        }
    }

    /// The ratio under which the fee recipient gets every fee whole.
    pub fn all_to_owner() -> (ratio: FeeRatio)
        ensures
            ratio.auction_parts() == 0,
            ratio.total_parts() == 1,
            ratio.valid(),
    {
        FeeRatio { auction_parts: 0, total_parts: 1 }
    }

    /// Divides a fee into the fee recipient's share and the auction's.
    pub fn get_value(&self, fee: Amount) -> (shares: (Amount, Amount))
        ensures
            shares.0.amount == self.owner_share(fee.amount),
            shares.1.amount == self.auction_share(fee.amount),
            shares.0.amount + shares.1.amount == fee.amount,
    {
        proof {
            use_type_invariant(self);
            self.lemma_shares(fee.amount);
        }
        let t: u128 = self.total_parts as u128;
        let a: u128 = self.auction_parts as u128;
        let q: u128 = fee.amount / t;
        let r: u128 = fee.amount % t;
        proof {
            let (qi, ri, ai, ti) = (q as int, r as int, a as int, t as int);
            let f = fee.amount as int;
            assert(f == ti * qi + ri) by {
                lemma_fundamental_div_mod(f, ti);
            }
            assert(qi * ai <= qi * ti) by (nonlinear_arith)
                requires
                    0 <= ai <= ti,
                    0 <= qi,
            ;
            assert(qi * ti == ti * qi) by (nonlinear_arith);
            assert(ri * ai <= 0xffff_ffff_ffff_ffff * 0xffff_ffff_ffff_ffff) by (nonlinear_arith)
                requires
                    0 <= ri <= 0xffff_ffff_ffff_ffff,
                    0 <= ai <= 0xffff_ffff_ffff_ffff,
            ;
            assert(f * ai == ri * ai + (qi * ai) * ti) by (nonlinear_arith)
                requires
                    f == ti * qi + ri,
            ;
            lemma_hoist_over_denominator(ri * ai, qi * ai, ti as nat);
        }
        let auction: u128 = q * a + (r * a) / t;
        (Amount { amount: fee.amount - auction }, Amount { amount: auction })
    }
}

} // verus!
