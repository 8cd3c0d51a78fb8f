use vstd::prelude::*;

verus! {

/// An unsigned 256-bit amount, held as two 128-bit halves.
#[derive(Clone, Copy, Debug, PartialEq, Eq, Structural)]
pub struct Uint256 {
    pub hi: u128,
    pub lo: u128,
}

/// 2^128, the weight of the high half.
pub open spec fn half_base() -> nat {
    0x1_0000_0000_0000_0000_0000_0000_0000_0000nat
}

impl Uint256 {
    /// The number this amount stands for.
    pub open spec fn value(self) -> nat {
        self.hi as nat * half_base() + self.lo as nat
    }

    /// Widens a 128-bit amount.
    pub fn from_uint128(v: u128) -> (r: Uint256)
        ensures
            r.value() == v as nat,
            r.hi == 0,
            r.lo == v,
    {
        Uint256 { hi: 0, lo: v }
    }

    /// Builds an amount from its two halves.
    pub fn new(hi: u128, lo: u128) -> (r: Uint256)
        ensures
            r.hi == hi,
            r.lo == lo,
    {
        Uint256 { hi, lo }
    }

    /// The amount as a 128-bit number, where it fits.
    pub fn to_uint128(self) -> (r: Option<u128>)
        ensures
            self.value() < half_base() <==> r.is_some(),
            r matches Some(v) ==> v as nat == self.value(),
    {
        proof {
            lemma_value_fits(self);
        }
        if self.hi == 0 {
            Some(self.lo)
        } else {
            None
        }
    }

    /// Whether this amount equals the 128-bit amount `v`.
    pub fn equals_uint128(self, v: u128) -> (r: bool)
        ensures
            r == (self.value() == v as nat),
    {
        proof {
            lemma_value_fits(self);
        }
        self.hi == 0 && self.lo == v
    }
}

/// An amount is below 2^128 exactly when its high half is zero.
pub proof fn lemma_value_fits(a: Uint256)
    ensures
        (a.value() < half_base()) == (a.hi == 0),
        a.hi == 0 ==> a.value() == a.lo as nat,
{
    if a.hi != 0 {
        assert(a.hi as nat * half_base() >= half_base()) by (nonlinear_arith)
            requires
                a.hi as nat >= 1,
        ;
    }
}

} // verus!
