use vstd::prelude::*;
use core::sync::atomic::Ordering;
use crate::arith::{add_of, bits_of, iwrap, neg_of, sub_of, lemma_wrap_congruent, modulus, signed};
use crate::cpuinfo::probe;
use crate::dispatch::{is_lock_free_with, STATIC_CMPXCHG16B};
use crate::ordering::{is_load_ordering, is_ordering, is_store_ordering};
use crate::rmw::{
    apply_of, cas_of, compare_exchange_value, update_next, update_start, validated_load, RmwOp,
    UpdateStep,
};

verus! {

/// Whether operations are lock-free on this machine: the build guarantees
/// the double-width compare-and-exchange, or the CPU reports it.
pub fn is_lock_free() -> (r: bool)
    ensures
        STATIC_CMPXCHG16B ==> r,
{
    is_lock_free_with(STATIC_CMPXCHG16B, probe())
}

/// Whether operations are lock-free on every machine the build targets.
pub fn is_always_lock_free() -> (r: bool)
    ensures
        r == STATIC_CMPXCHG16B,
{
    STATIC_CMPXCHG16B
}

/// An unsigned 128-bit integer cell with the atomic operation set. Holding
/// it by `&mut` is exclusive access, so each operation takes effect as one
/// step: the value it reports is the value it replaced.
#[derive(Debug)]
pub struct AtomicU128 {
    v: u128,
}

impl View for AtomicU128 {
    type V = u128;

    closed spec fn view(&self) -> u128 {
        self.v
    }
}

impl AtomicU128 {
    /// A cell holding `v`.
    pub fn new(v: u128) -> (r: AtomicU128)
        ensures
            r@ == v,
    {
        AtomicU128 { v }
    }

    /// The value held, consuming the cell.
    pub fn into_inner(self) -> (r: u128)
        ensures
            r == self@,
    {
        self.v
    }

    pub fn is_lock_free() -> (r: bool)
        ensures
            STATIC_CMPXCHG16B ==> r,
    {
        is_lock_free()
    }

    pub fn is_always_lock_free() -> (r: bool)
        ensures
            r == STATIC_CMPXCHG16B,
    {
        is_always_lock_free()
    }

    /// Loads the value: a compare-and-swap of zero with zero, which changes
    /// nothing and reports the value it found either way.
    pub fn load(&self, order: Ordering) -> (r: u128)
        requires
            is_load_ordering(order),
        ensures
            r == self@,
    {
        let (_next, outcome) = compare_exchange_value(self.v, 0, 0);
        validated_load(outcome)
    }

    /// Stores `val`, as a swap whose result is dropped.
    pub fn store(&mut self, val: u128, order: Ordering)
        requires
            is_store_ordering(order),
        ensures
            final(self)@ == val,
    {
        let _ = self.swap(val, order);
    }

    /// Runs one read-modify-write through the retry protocol: seed, attempt
    /// the compare-and-swap, decide.
    fn update(&mut self, op: RmwOp, val: u128) -> (r: u128)
        ensures
            r == old(self)@,
            final(self)@ == apply_of(op, old(self)@, val),
    {
        let cur = self.v;
        let req = update_start(op, val, cur);
        let (next, outcome) = compare_exchange_value(cur, req.expected, req.new);
        self.v = next;
        match update_next(op, val, outcome) {
            UpdateStep::Done(x) => x,
            UpdateStep::Retry(_) => cur,
        }
    }

    /// Stores `val`, returning the previous value.
    pub fn swap(&mut self, val: u128, order: Ordering) -> (r: u128)
        requires
            is_ordering(order),
        ensures
            r == old(self)@,
            final(self)@ == val,
    {
        self.update(RmwOp::Swap, val)
    }

    /// Stores `new` where the cell holds `current`: `Ok` with the previous
    /// value if it did, `Err` with the value found, unchanged, if not.
    pub fn compare_exchange(
        &mut self,
        current: u128,
        new: u128,
        success: Ordering,
        failure: Ordering,
    ) -> (r: Result<u128, u128>)
        requires
            is_ordering(success),
            is_load_ordering(failure),
        ensures
            (final(self)@, r) == cas_of(old(self)@, current, new),
    {
        let (next, outcome) = compare_exchange_value(self.v, current, new);
        self.v = next;
        outcome
    }

    /// As `compare_exchange`: this cell never fails spuriously.
    pub fn compare_exchange_weak(
        &mut self,
        current: u128,
        new: u128,
        success: Ordering,
        failure: Ordering,
    ) -> (r: Result<u128, u128>)
        requires
            is_ordering(success),
            is_load_ordering(failure),
        ensures
            (final(self)@, r) == cas_of(old(self)@, current, new),
    {
        self.compare_exchange(current, new, success, failure)
    }

    /// Adds `val` with wraparound, returning the previous value.
    pub fn fetch_add(&mut self, val: u128, order: Ordering) -> (r: u128)
        requires
            is_ordering(order),
        ensures
            r == old(self)@,
            final(self)@ == add_of(old(self)@, val),
    {
        self.update(RmwOp::Add, val)
    }

    /// Subtracts `val` with wraparound, returning the previous value.
    pub fn fetch_sub(&mut self, val: u128, order: Ordering) -> (r: u128)
        requires
            is_ordering(order),
        ensures
            r == old(self)@,
            final(self)@ == sub_of(old(self)@, val),
    {
        self.update(RmwOp::Sub, val)
    }

    /// Bitwise and with `val`, returning the previous value.
    pub fn fetch_and(&mut self, val: u128, order: Ordering) -> (r: u128)
        requires
            is_ordering(order),
        ensures
            r == old(self)@,
            final(self)@ == old(self)@ & val,
    {
        self.update(RmwOp::And, val)
    }

    /// Bitwise not-and with `val`, returning the previous value.
    pub fn fetch_nand(&mut self, val: u128, order: Ordering) -> (r: u128)
        requires
            is_ordering(order),
        ensures
            r == old(self)@,
            final(self)@ == !(old(self)@ & val),
    {
        self.update(RmwOp::Nand, val)
    }

    /// Bitwise or with `val`, returning the previous value.
    pub fn fetch_or(&mut self, val: u128, order: Ordering) -> (r: u128)
        requires
            is_ordering(order),
        ensures
            r == old(self)@,
            final(self)@ == old(self)@ | val,
    {
        self.update(RmwOp::Or, val)
    }

    /// Bitwise exclusive or with `val`, returning the previous value.
    pub fn fetch_xor(&mut self, val: u128, order: Ordering) -> (r: u128)
        requires
            is_ordering(order),
        ensures
            r == old(self)@,
            final(self)@ == old(self)@ ^ val,
    {
        self.update(RmwOp::Xor, val)
    }

    /// Keeps the larger of the value and `val`, returning the previous value.
    pub fn fetch_max(&mut self, val: u128, order: Ordering) -> (r: u128)
        requires
            is_ordering(order),
        ensures
            r == old(self)@,
            final(self)@ == (if old(self)@ >= val { old(self)@ } else { val }),
    {
        self.update(RmwOp::UMax, val)
    }

    /// Keeps the smaller of the value and `val`, returning the previous value.
    pub fn fetch_min(&mut self, val: u128, order: Ordering) -> (r: u128)
        requires
            is_ordering(order),
        ensures
            r == old(self)@,
            final(self)@ == (if old(self)@ <= val { old(self)@ } else { val }),
    {
        self.update(RmwOp::UMin, val)
    }

    /// Inverts every bit, returning the previous value.
    pub fn fetch_not(&mut self, order: Ordering) -> (r: u128)
        requires
            is_ordering(order),
        ensures
            r == old(self)@,
            final(self)@ == !old(self)@,
    {
        self.update(RmwOp::Not, 0)
    }

    /// Negates with wraparound, returning the previous value.
    pub fn fetch_neg(&mut self, order: Ordering) -> (r: u128)
        requires
            is_ordering(order),
        ensures
            r == old(self)@,
            final(self)@ == neg_of(old(self)@),
    {
        self.update(RmwOp::Neg, 0)
    }
}

} // verus!

verus! {

/// The two's-complement bit pattern of `x`.
fn to_bits(x: i128) -> (r: u128)
    ensures
        r == bits_of(x),
        signed(r) == x,
{
    if x >= 0 {
        x as u128
    } else {
        let d = (-(x + 1)) as u128;
        u128::MAX - d
    }
}

/// The signed integer whose two's-complement bit pattern is `u`.
fn from_bits(u: u128) -> (r: i128)
    ensures
        r == signed(u),
        bits_of(r) == u,
{
    if u <= i128::MAX as u128 {
        u as i128
    } else {
        let d = (u128::MAX - u) as i128;
        -d - 1
    }
}

/// What a compare-and-swap on a signed cell holding `cur` leaves and reports.
pub open spec fn cas_of_signed(cur: i128, expected: i128, new: i128) -> (i128, Result<i128, i128>) {
    if cur == expected {
        (new, Ok(cur))
    } else {
        (cur, Err(cur))
    }
}

/// A signed 128-bit integer cell with the atomic operation set; see
/// `AtomicU128`. Its bitwise operations act on the two's-complement pattern.
#[derive(Debug)]
pub struct AtomicI128 {
    v: i128,
}

impl View for AtomicI128 {
    type V = i128;

    closed spec fn view(&self) -> i128 {
        self.v
    }
}

impl AtomicI128 {
    /// A cell holding `v`.
    pub fn new(v: i128) -> (r: AtomicI128)
        ensures
            r@ == v,
    {
        AtomicI128 { v }
    }

    /// The value held, consuming the cell.
    pub fn into_inner(self) -> (r: i128)
        ensures
            r == self@,
    {
        self.v
    }

    pub fn is_lock_free() -> (r: bool)
        ensures
            STATIC_CMPXCHG16B ==> r,
    {
        is_lock_free()
    }

    pub fn is_always_lock_free() -> (r: bool)
        ensures
            r == STATIC_CMPXCHG16B,
    {
        is_always_lock_free()
    }

    /// Loads the value through a compare-and-swap of zero with zero.
    pub fn load(&self, order: Ordering) -> (r: i128)
        requires
            is_load_ordering(order),
        ensures
            r == self@,
    {
        let (_next, outcome) = compare_exchange_value(to_bits(self.v), 0, 0);
        from_bits(validated_load(outcome))
    }

    /// Stores `val`, as a swap whose result is dropped.
    pub fn store(&mut self, val: i128, order: Ordering)
        requires
            is_store_ordering(order),
        ensures
            final(self)@ == val,
    {
        let _ = self.swap(val, order);
    }

    /// One read-modify-write on the bit pattern, through the retry protocol.
    fn update(&mut self, op: RmwOp, val: i128) -> (r: i128)
        ensures
            r == old(self)@,
            bits_of(final(self)@) == apply_of(op, bits_of(old(self)@), bits_of(val)),
    {
        let cur = to_bits(self.v);
        let operand = to_bits(val);
        let req = update_start(op, operand, cur);
        let (next, outcome) = compare_exchange_value(cur, req.expected, req.new);
        self.v = from_bits(next);
        match update_next(op, operand, outcome) {
            UpdateStep::Done(x) => from_bits(x),
            UpdateStep::Retry(_) => from_bits(cur),
        }
    }

    /// Stores `val`, returning the previous value.
    pub fn swap(&mut self, val: i128, order: Ordering) -> (r: i128)
        requires
            is_ordering(order),
        ensures
            r == old(self)@,
            final(self)@ == val,
    {
        let r = self.update(RmwOp::Swap, val);
        proof {
            lemma_bits_injective(self@, val);
        }
        r
    }

    /// Stores `new` where the cell holds `current`: `Ok` with the previous
    /// value if it did, `Err` with the value found, unchanged, if not.
    pub fn compare_exchange(
        &mut self,
        current: i128,
        new: i128,
        success: Ordering,
        failure: Ordering,
    ) -> (r: Result<i128, i128>)
        requires
            is_ordering(success),
            is_load_ordering(failure),
        ensures
            (final(self)@, r) == cas_of_signed(old(self)@, current, new),
    {
        proof {
            lemma_bits_injective(self@, current);
        }
        let (next, outcome) = compare_exchange_value(to_bits(self.v), to_bits(current), to_bits(new));
        self.v = from_bits(next);
        match outcome {
            Ok(x) => Ok(from_bits(x)),
            Err(x) => Err(from_bits(x)),
        }
    }

    /// As `compare_exchange`: this cell never fails spuriously.
    pub fn compare_exchange_weak(
        &mut self,
        current: i128,
        new: i128,
        success: Ordering,
        failure: Ordering,
    ) -> (r: Result<i128, i128>)
        requires
            is_ordering(success),
            is_load_ordering(failure),
        ensures
            (final(self)@, r) == cas_of_signed(old(self)@, current, new),
    {
        self.compare_exchange(current, new, success, failure)
    }

    /// Adds `val` with wraparound, returning the previous value.
    pub fn fetch_add(&mut self, val: i128, order: Ordering) -> (r: i128)
        requires
            is_ordering(order),
        ensures
            r == old(self)@,
            final(self)@ == iwrap(old(self)@ + val),
    {
        let ghost a = self@;
        let r = self.update(RmwOp::Add, val);
        proof {
            lemma_bits_congruent(a);
            lemma_bits_congruent(val);
            let ka: int = if a >= 0 { 0 } else { 1 };
            let kv: int = if val >= 0 { 0 } else { 1 };
            lemma_wrap_congruent(a + val, ka + kv);
        }
        r
    }

    /// Subtracts `val` with wraparound, returning the previous value.
    pub fn fetch_sub(&mut self, val: i128, order: Ordering) -> (r: i128)
        requires
            is_ordering(order),
        ensures
            r == old(self)@,
            final(self)@ == iwrap(old(self)@ - val),
    {
        let ghost a = self@;
        let r = self.update(RmwOp::Sub, val);
        proof {
            lemma_bits_congruent(a);
            lemma_bits_congruent(val);
            let ka: int = if a >= 0 { 0 } else { 1 };
            let kv: int = if val >= 0 { 0 } else { 1 };
            lemma_wrap_congruent(a - val, ka - kv);
        }
        r
    }

    /// Bitwise and with `val` on the bit patterns, returning the previous value.
    pub fn fetch_and(&mut self, val: i128, order: Ordering) -> (r: i128)
        requires
            is_ordering(order),
        ensures
            r == old(self)@,
            bits_of(final(self)@) == bits_of(old(self)@) & bits_of(val),
    {
        self.update(RmwOp::And, val)
    }

    /// Bitwise not-and with `val` on the bit patterns, returning the previous value.
    pub fn fetch_nand(&mut self, val: i128, order: Ordering) -> (r: i128)
        requires
            is_ordering(order),
        ensures
            r == old(self)@,
            bits_of(final(self)@) == !(bits_of(old(self)@) & bits_of(val)),
    {
        self.update(RmwOp::Nand, val)
    }

    /// Bitwise or with `val` on the bit patterns, returning the previous value.
    pub fn fetch_or(&mut self, val: i128, order: Ordering) -> (r: i128)
        requires
            is_ordering(order),
        ensures
            r == old(self)@,
            bits_of(final(self)@) == bits_of(old(self)@) | bits_of(val),
    {
        self.update(RmwOp::Or, val)
    }

    /// Bitwise exclusive or with `val` on the bit patterns, returning the
    /// previous value.
    pub fn fetch_xor(&mut self, val: i128, order: Ordering) -> (r: i128)
        requires
            is_ordering(order),
        ensures
            r == old(self)@,
            bits_of(final(self)@) == bits_of(old(self)@) ^ bits_of(val),
    {
        self.update(RmwOp::Xor, val)
    }

    /// Keeps the larger of the value and `val`, returning the previous value.
    pub fn fetch_max(&mut self, val: i128, order: Ordering) -> (r: i128)
        requires
            is_ordering(order),
        ensures
            r == old(self)@,
            final(self)@ == (if old(self)@ >= val { old(self)@ } else { val }),
    {
        let ghost a = self@;
        let r = self.update(RmwOp::Max, val);
        proof {
            lemma_bits_injective(self@, a);
            lemma_bits_injective(self@, val);
        }
        r
    }

    /// Keeps the smaller of the value and `val`, returning the previous value.
    pub fn fetch_min(&mut self, val: i128, order: Ordering) -> (r: i128)
        requires
            is_ordering(order),
        ensures
            r == old(self)@,
            final(self)@ == (if old(self)@ <= val { old(self)@ } else { val }),
    {
        let ghost a = self@;
        let r = self.update(RmwOp::Min, val);
        proof {
            lemma_bits_injective(self@, a);
            lemma_bits_injective(self@, val);
        }
        r
    }

    /// Inverts every bit, returning the previous value.
    pub fn fetch_not(&mut self, order: Ordering) -> (r: i128)
        requires
            is_ordering(order),
        ensures
            r == old(self)@,
            bits_of(final(self)@) == !bits_of(old(self)@),
    {
        self.update(RmwOp::Not, 0)
    }

    /// Negates with wraparound, returning the previous value.
    pub fn fetch_neg(&mut self, order: Ordering) -> (r: i128)
        requires
            is_ordering(order),
        ensures
            r == old(self)@,
            final(self)@ == iwrap(-old(self)@),
    {
        let ghost a = self@;
        let r = self.update(RmwOp::Neg, 0);
        proof {
            lemma_bits_congruent(a);
            let ka: int = if a >= 0 { 0 } else { -1 };
            lemma_wrap_congruent(-a, ka);
        }
        r
    }
}

/// The bit pattern of a signed value is the value or the value plus 2^128,
/// and reads back as the value.
proof fn lemma_bits_congruent(x: i128)
    ensures
        bits_of(x) == (if x >= 0 { x as int } else { x + modulus() }),
        signed(bits_of(x)) == x,
{
}

/// Distinct signed values have distinct bit patterns.
proof fn lemma_bits_injective(x: i128, y: i128)
    ensures
        bits_of(x) == bits_of(y) <==> x == y,
        signed(bits_of(x)) == x,
        signed(bits_of(y)) == y,
{
}

} // verus!
