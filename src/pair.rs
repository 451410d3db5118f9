use vstd::prelude::*;

verus! {

/// 2^64: the weight of the high half of a 128-bit value.
pub const HALF: u128 = 0x1_0000_0000_0000_0000;

/// A 128-bit value seen as two machine words, low half first.
#[derive(Clone, Copy, Debug, PartialEq, Eq, Structural)]
pub struct Pair {
    pub lo: u64,
    pub hi: u64,
}

impl Pair {
    /// The 128-bit value that the two halves stand for.
    pub open spec fn whole(self) -> u128 {
        (self.hi as int * HALF + self.lo as int) as u128
    }

    /// Splits a 128-bit value into its halves.
    pub fn split(v: u128) -> (r: Pair)
        ensures
            r.whole() == v,
            r.lo == v % HALF,
            r.hi == v / HALF,
    {
        Pair { lo: (v % HALF) as u64, hi: (v / HALF) as u64 }
    }

    /// Joins two halves into the 128-bit value they stand for.
    pub fn join(self) -> (r: u128)
        ensures
            r == self.whole(),
    {
        (self.hi as u128) * HALF + (self.lo as u128)
    }
}

/// The bitwise layout of a pair agrees with its arithmetic value.
pub proof fn lemma_whole_is_bits(p: Pair)
    ensures
        p.whole() == ((p.hi as u128) << 64u128) | (p.lo as u128),
{
    let lo = p.lo;
    let hi = p.hi;
    assert(((hi as u128) << 64u128) | (lo as u128) == (hi as u128) * 0x1_0000_0000_0000_0000u128
        + (lo as u128)) by (bit_vector);
}

} // verus!
