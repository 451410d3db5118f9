use vstd::prelude::*;
use crate::arith::{
    lemma_wrap_by, modulus, add_of, max_of, min_of, nand_of, neg_of, signed, signed64, sub_of, umax_of, umin_of,
};
use crate::pair::{lemma_whole_is_bits, Pair, HALF};

verus! {

/// Two-word addition: add the low halves, then add the high halves with
/// the carry out of the low halves.
pub fn add(a: Pair, b: Pair) -> (r: Pair)
    ensures
        r.whole() == add_of(a.whole(), b.whole()),
{
    let lo = a.lo.wrapping_add(b.lo);
    let carry: u64 = if lo < a.lo { 1 } else { 0 };
    let hi = a.hi.wrapping_add(b.hi).wrapping_add(carry);
    let r = Pair { lo, hi };
    proof {
        let s = a.whole() + b.whole();
        if s < modulus() {
            lemma_wrap_by(s, 0);
        } else {
            lemma_wrap_by(s, 1);
        }
    }
    r
}

/// Two-word subtraction: subtract the low halves, then the high halves with
/// the borrow out of the low halves.
pub fn sub(a: Pair, b: Pair) -> (r: Pair)
    ensures
        r.whole() == sub_of(a.whole(), b.whole()),
{
    let lo = a.lo.wrapping_sub(b.lo);
    let borrow: u64 = if a.lo < b.lo { 1 } else { 0 };
    let hi = a.hi.wrapping_sub(b.hi).wrapping_sub(borrow);
    let r = Pair { lo, hi };
    proof {
        let d = a.whole() - b.whole();
        if d >= 0 {
            lemma_wrap_by(d, 0);
        } else {
            lemma_wrap_by(d, -1);
        }
    }
    r
}

/// Two-word negation: negate the low half, then subtract the high half and
/// the borrow of that negation from zero.
pub fn neg(a: Pair) -> (r: Pair)
    ensures
        r.whole() == neg_of(a.whole()),
{
    let lo = 0u64.wrapping_sub(a.lo);
    let borrow: u64 = if a.lo != 0 { 1 } else { 0 };
    let hi = 0u64.wrapping_sub(a.hi).wrapping_sub(borrow);
    let r = Pair { lo, hi };
    proof {
        if a.whole() == 0 {
            lemma_wrap_by(0, 0);
        } else {
            lemma_wrap_by(-a.whole(), -1);
        }
    }
    r
}

} // verus!

verus! {

/// Halfwise bitwise and.
pub fn and(a: Pair, b: Pair) -> (r: Pair)
    ensures
        r.whole() == a.whole() & b.whole(),
{
    let r = Pair { lo: a.lo & b.lo, hi: a.hi & b.hi };
    proof {
        lemma_whole_is_bits(a);
        lemma_whole_is_bits(b);
        lemma_whole_is_bits(r);
        let (al, ah, bl, bh) = (a.lo, a.hi, b.lo, b.hi);
        assert((((ah & bh) as u128) << 64u128) | ((al & bl) as u128) == ((((ah as u128)
            << 64u128) | (al as u128)) & (((bh as u128) << 64u128) | (bl as u128))))
            by (bit_vector);
    }
    r
}

/// Halfwise bitwise or.
pub fn or(a: Pair, b: Pair) -> (r: Pair)
    ensures
        r.whole() == a.whole() | b.whole(),
{
    let r = Pair { lo: a.lo | b.lo, hi: a.hi | b.hi };
    proof {
        lemma_whole_is_bits(a);
        lemma_whole_is_bits(b);
        lemma_whole_is_bits(r);
        let (al, ah, bl, bh) = (a.lo, a.hi, b.lo, b.hi);
        assert((((ah | bh) as u128) << 64u128) | ((al | bl) as u128) == ((((ah as u128)
            << 64u128) | (al as u128)) | (((bh as u128) << 64u128) | (bl as u128))))
            by (bit_vector);
    }
    r
}

/// Halfwise bitwise exclusive or.
pub fn xor(a: Pair, b: Pair) -> (r: Pair)
    ensures
        r.whole() == a.whole() ^ b.whole(),
{
    let r = Pair { lo: a.lo ^ b.lo, hi: a.hi ^ b.hi };
    proof {
        lemma_whole_is_bits(a);
        lemma_whole_is_bits(b);
        lemma_whole_is_bits(r);
        let (al, ah, bl, bh) = (a.lo, a.hi, b.lo, b.hi);
        assert((((ah ^ bh) as u128) << 64u128) | ((al ^ bl) as u128) == ((((ah as u128)
            << 64u128) | (al as u128)) ^ (((bh as u128) << 64u128) | (bl as u128))))
            by (bit_vector);
    }
    r
}

/// Halfwise bitwise not.
pub fn not(a: Pair) -> (r: Pair)
    ensures
        r.whole() == !a.whole(),
{
    let r = Pair { lo: !a.lo, hi: !a.hi };
    proof {
        lemma_whole_is_bits(a);
        lemma_whole_is_bits(r);
        let (al, ah) = (a.lo, a.hi);
        assert((((!ah) as u128) << 64u128) | ((!al) as u128) == !(((ah as u128) << 64u128) | (
        al as u128))) by (bit_vector);
    }
    r
}

/// Halfwise not-and: the complement of the bitwise and.
pub fn nand(a: Pair, b: Pair) -> (r: Pair)
    ensures
        r.whole() == nand_of(a.whole(), b.whole()),
{
    not(and(a, b))
}

/// Whether `x < y` as unsigned 128-bit integers, decided on the halves.
pub fn lt_unsigned(x: Pair, y: Pair) -> (r: bool)
    ensures
        r == (x.whole() < y.whole()),
{
    x.hi < y.hi || (x.hi == y.hi && x.lo < y.lo)
}

/// Whether `x < y` as signed 128-bit integers, decided on the halves: the
/// high halves compare as signed words, the low halves as unsigned ones.
pub fn lt_signed(x: Pair, y: Pair) -> (r: bool)
    ensures
        r == (signed(x.whole()) < signed(y.whole())),
{
    let xh = x.hi ^ 0x8000_0000_0000_0000u64;
    let yh = y.hi ^ 0x8000_0000_0000_0000u64;
    proof {
        let (a, b) = (x.hi, y.hi);
        assert((a ^ 0x8000_0000_0000_0000u64) < (b ^ 0x8000_0000_0000_0000u64) <==> (
        (a < 0x8000_0000_0000_0000u64 && b < 0x8000_0000_0000_0000u64 && a < b) || (a
            >= 0x8000_0000_0000_0000u64 && b >= 0x8000_0000_0000_0000u64 && a < b) || (a
            >= 0x8000_0000_0000_0000u64 && b < 0x8000_0000_0000_0000u64))) by (bit_vector);
        assert(signed(x.whole()) == signed64(x.hi) * HALF + x.lo);
        assert(signed(y.whole()) == signed64(y.hi) * HALF + y.lo);
    }
    xh < yh || (x.hi == y.hi && x.lo < y.lo)
}

/// Signed maximum, as the register sequence computes it: keep the previous
/// value where the operand is smaller, else take the operand.
pub fn max(prev: Pair, val: Pair) -> (r: Pair)
    ensures
        r.whole() == max_of(prev.whole(), val.whole()),
{
    if lt_signed(val, prev) {
        prev
    } else {
        val
    }
}

/// Signed minimum: keep the previous value where the operand is not smaller.
pub fn min(prev: Pair, val: Pair) -> (r: Pair)
    ensures
        r.whole() == min_of(prev.whole(), val.whole()),
{
    if lt_signed(val, prev) {
        val
    } else {
        prev
    }
}

/// Unsigned maximum.
pub fn umax(prev: Pair, val: Pair) -> (r: Pair)
    ensures
        r.whole() == umax_of(prev.whole(), val.whole()),
{
    if lt_unsigned(val, prev) {
        prev
    } else {
        val
    }
}

/// Unsigned minimum.
pub fn umin(prev: Pair, val: Pair) -> (r: Pair)
    ensures
        r.whole() == umin_of(prev.whole(), val.whole()),
{
    if lt_unsigned(val, prev) {
        val
    } else {
        prev
    }
}

} // verus!
