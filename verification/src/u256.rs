//! An unsigned 256-bit integer, the width of token identifiers, balances and
//! the supply counter, kept as two 128-bit limbs.

use vstd::prelude::*;

verus! {

/// 2^128, the weight of the high limb.
pub open spec fn limb_weight() -> nat {
    0x100000000000000000000000000000000nat
}

/// 2^256, one past the largest representable value.
pub open spec fn u256_limit() -> nat {
    0x10000000000000000000000000000000000000000000000000000000000000000nat
}

/// An unsigned 256-bit integer.
#[derive(Clone, Copy, PartialEq, Eq, Structural, Debug)]
pub struct U256 {
    pub hi: u128,
    pub lo: u128,
}

impl U256 {
    /// The mathematical value.
    pub open spec fn as_nat(self) -> nat {
        self.hi as nat * limb_weight() + self.lo as nat
    }

    /// The zero value.
    pub open spec fn spec_zero() -> U256 {
        U256 { hi: 0, lo: 0 }
    }

    pub fn zero() -> (r: U256)
        ensures
            r == U256::spec_zero(),
            r.as_nat() == 0,
    {
        U256 { hi: 0, lo: 0 }
    }

    pub fn from_u64(x: u64) -> (r: U256)
        ensures
            r.as_nat() == x,
    {
        U256 { hi: 0, lo: x as u128 }
    }

    pub fn is_zero(&self) -> (r: bool)
        ensures
            r == (self.as_nat() == 0),
    {
        self.hi == 0 && self.lo == 0
    }

    /// The next value up.
    pub fn inc(self) -> (r: U256)
        requires
            self.as_nat() + 1 < u256_limit(),
        ensures
            r.as_nat() == self.as_nat() + 1,
    {
        if self.lo == u128::MAX {
            proof {
                if self.hi == u128::MAX {
                    assert(self.as_nat() + 1 == u256_limit());
                }
            }
            U256 { hi: self.hi + 1, lo: 0 }
        } else {
            U256 { hi: self.hi, lo: self.lo + 1 }
        }
    }

    /// The next value down.
    pub fn dec(self) -> (r: U256)
        requires
            self.as_nat() >= 1,
        ensures
            r.as_nat() == self.as_nat() - 1,
    {
        if self.lo == 0 {
            U256 { hi: self.hi - 1, lo: u128::MAX }
        } else {
            U256 { hi: self.hi, lo: self.lo - 1 }
        }
    }
}

} // verus!
