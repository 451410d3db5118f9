use vstd::prelude::*;
use crate::arith::{
    add_of, max_of, min_of, nand_of, neg_of, sub_of, umax_of, umin_of, lemma_wrap_by,
};
use crate::dword;
use crate::pair::Pair;

verus! {

/// A read-modify-write operation: what a fetch operation stores, given the
/// value it found and its operand.
#[derive(Clone, Copy, Debug, PartialEq, Eq, Structural)]
pub enum RmwOp {
    Swap,
    Add,
    Sub,
    And,
    Nand,
    Or,
    Xor,
    Max,
    Min,
    UMax,
    UMin,
    Not,
    Neg,
}

/// The value that `op` stores over `cur` with operand `val` (the operand is
/// ignored by `Not` and `Neg`); `Max` and `Min` read both as signed.
pub open spec fn apply_of(op: RmwOp, cur: u128, val: u128) -> u128 {
    match op {
        RmwOp::Swap => val,
        RmwOp::Add => add_of(cur, val),
        RmwOp::Sub => sub_of(cur, val),
        RmwOp::And => cur & val,
        RmwOp::Nand => nand_of(cur, val),
        RmwOp::Or => cur | val,
        RmwOp::Xor => cur ^ val,
        RmwOp::Max => max_of(cur, val),
        RmwOp::Min => min_of(cur, val),
        RmwOp::UMax => umax_of(cur, val),
        RmwOp::UMin => umin_of(cur, val),
        RmwOp::Not => !cur,
        RmwOp::Neg => neg_of(cur),
    }
}

/// Computes the new value of a read-modify-write on the register pair, as
/// the body of the native retry loop does.
pub fn apply_pair(op: RmwOp, cur: Pair, val: Pair) -> (r: Pair)
    ensures
        r.whole() == apply_of(op, cur.whole(), val.whole()),
{
    match op {
        RmwOp::Swap => val,
        RmwOp::Add => dword::add(cur, val),
        RmwOp::Sub => dword::sub(cur, val),
        RmwOp::And => dword::and(cur, val),
        RmwOp::Nand => dword::nand(cur, val),
        RmwOp::Or => dword::or(cur, val),
        RmwOp::Xor => dword::xor(cur, val),
        RmwOp::Max => dword::max(cur, val),
        RmwOp::Min => dword::min(cur, val),
        RmwOp::UMax => dword::umax(cur, val),
        RmwOp::UMin => dword::umin(cur, val),
        RmwOp::Not => dword::not(cur),
        RmwOp::Neg => dword::neg(cur),
    }
}

/// Computes the new value of a read-modify-write on 128-bit values.
pub fn apply(op: RmwOp, cur: u128, val: u128) -> (r: u128)
    ensures
        r == apply_of(op, cur, val),
{
    apply_pair(op, Pair::split(cur), Pair::split(val)).join()
}

/// What a compare-and-swap on a cell that holds `cur` leaves in the cell,
/// and what it reports: `Ok` with the old value when it matched `expected`
/// and `new` was stored, `Err` with the value found otherwise.
pub open spec fn cas_of(cur: u128, expected: u128, new: u128) -> (u128, Result<u128, u128>) {
    if cur == expected {
        (new, Ok(cur))
    } else {
        (cur, Err(cur))
    }
}

/// The state of memory and registers after one double-width
/// compare-and-exchange instruction.
#[derive(Clone, Copy, Debug, PartialEq, Eq, Structural)]
pub struct Cmpxchg {
    /// The memory operand after the instruction.
    pub mem: Pair,
    /// The comparand register pair after the instruction: the memory
    /// operand's previous value in either case.
    pub prev: Pair,
    /// The zero flag: set where the comparison matched.
    pub zf: bool,
}

/// One double-width compare-and-exchange: where the memory operand equals
/// the comparand, the replacement is stored and the zero flag set;
/// otherwise the memory operand is loaded into the comparand pair.
pub fn cmpxchg16b(mem: Pair, expected: Pair, new: Pair) -> (r: Cmpxchg)
    ensures
        r.zf == (mem.whole() == expected.whole()),
        r.prev == mem,
        r.mem == (if r.zf { new } else { mem }),
{
    if mem.lo == expected.lo && mem.hi == expected.hi {
        Cmpxchg { mem: new, prev: mem, zf: true }
    } else {
        Cmpxchg { mem, prev: mem, zf: false }
    }
}

/// A compare-and-swap on the value of a cell, by way of the instruction on
/// its halves. The weak form is the same operation: it never fails
/// spuriously.
pub fn compare_exchange_value(cur: u128, expected: u128, new: u128) -> (r: (
    u128,
    Result<u128, u128>,
))
    ensures
        r == cas_of(cur, expected, new),
{
    let out = cmpxchg16b(Pair::split(cur), Pair::split(expected), Pair::split(new));
    let prev = out.prev.join();
    if out.zf {
        (out.mem.join(), Ok(prev))
    } else {
        (out.mem.join(), Err(prev))
    }
}

/// The value that a load reports after validating a snapshot by a
/// compare-and-swap of the snapshot with itself: the value that the
/// compare-and-swap found, whichever way it went.
pub fn validated_load(outcome: Result<u128, u128>) -> (r: u128)
    ensures
        r == (match outcome {
            Ok(v) => v,
            Err(v) => v,
        }),
{
    match outcome {
        Ok(v) => v,
        Err(v) => v,
    }
}

/// The next compare-and-swap a retry loop attempts: replace `expected` by
/// what `op` makes of it.
#[derive(Clone, Copy, Debug, PartialEq, Eq, Structural)]
pub struct CasRequest {
    pub expected: u128,
    pub new: u128,
}

/// What a retry loop does after a compare-and-swap.
#[derive(Clone, Copy, Debug, PartialEq, Eq, Structural)]
pub enum UpdateStep {
    /// The operation took effect; the payload is the value it replaced.
    Done(u128),
    /// The cell held another value; try again with this request.
    Retry(CasRequest),
}

/// The first attempt of a read-modify-write, seeded by a best-effort read
/// (which may be stale or even torn: the compare-and-swap checks it).
pub fn update_start(op: RmwOp, val: u128, seed: u128) -> (r: CasRequest)
    ensures
        r.expected == seed,
        r.new == apply_of(op, seed, val),
{
    CasRequest { expected: seed, new: apply(op, seed, val) }
}

/// The decision after an attempt: done with the old value where the swap
/// took place, else a new attempt built from the value the swap found,
/// without reading memory again.
pub fn update_next(op: RmwOp, val: u128, outcome: Result<u128, u128>) -> (r: UpdateStep)
    ensures
        match outcome {
            Ok(x) => r == UpdateStep::Done(x),
            Err(x) => r == UpdateStep::Retry(CasRequest { expected: x, new: apply_of(op, x, val) }),
        },
{
    match outcome {
        Ok(x) => UpdateStep::Done(x),
        Err(x) => UpdateStep::Retry(update_start(op, val, x)),
    }
}

/// A read-modify-write takes effect at its successful compare-and-swap: when
/// an attempt built by the retry loop meets a cell that holds `cur`, either
/// it completes, returning `cur` and leaving `op` applied to it, or it
/// leaves the cell alone, and its next attempt is built from `cur`, so that
/// it completes if nothing intervenes.
pub proof fn lemma_update_linearizes(op: RmwOp, val: u128, req: CasRequest, cur: u128)
    requires
        req.new == apply_of(op, req.expected, val),
    ensures
        ({
            let (next, outcome) = cas_of(cur, req.expected, req.new);
            match outcome {
                Ok(x) => x == cur && next == apply_of(op, cur, val),
                Err(x) => x == cur && next == cur && ({
                    let (next2, outcome2) = cas_of(
                        cur,
                        cur,
                        apply_of(op, cur, val),
                    );
                    outcome2 == Ok::<u128, u128>(cur) && next2 == apply_of(op, cur, val)
                }),
            }
        }),
{
}

/// A load never sees a torn value: whatever snapshot of the halves it
/// started from, validating it by a compare-and-swap of the snapshot with
/// itself leaves the cell as it was and reports the value the cell holds.
pub proof fn lemma_no_torn_read(cur: u128, snapshot: u128)
    ensures
        cas_of(cur, snapshot, snapshot).0 == cur,
        (match cas_of(cur, snapshot, snapshot).1 {
            Ok(v) => v,
            Err(v) => v,
        }) == cur,
{
}

/// A store followed by a load gives the stored value back: the store is a
/// swap, which leaves exactly the operand, and the load is a compare-and-swap
/// of zero with zero, which leaves the cell alone and reports what it holds.
pub proof fn lemma_store_load_round_trip(cur: u128, v: u128)
    ensures
        apply_of(RmwOp::Swap, cur, v) == v,
        cas_of(apply_of(RmwOp::Swap, cur, v), 0, 0).0 == v,
        (match cas_of(apply_of(RmwOp::Swap, cur, v), 0, 0).1 {
            Ok(x) => x,
            Err(x) => x,
        }) == v,
{
}

/// Compare-and-swap is correct: where the cell holds the expected value it
/// succeeds, reports that value and holds the new one; otherwise it fails,
/// reports the true current value and leaves the cell unmodified.
pub proof fn lemma_compare_exchange_correct(cur: u128, expected: u128, new: u128)
    ensures
        cur == expected ==> cas_of(cur, expected, new) == (new, Ok::<u128, u128>(cur)),
        cur != expected ==> cas_of(cur, expected, new) == (cur, Err::<u128, u128>(cur)),
{
}

/// The value of a cell that starts at `start` after `n` increments by one.
pub open spec fn after_increments(start: u128, n: nat) -> u128
    decreases n,
{
    if n == 0 {
        start
    } else {
        add_of(after_increments(start, (n - 1) as nat), 1)
    }
}

/// No update is lost: `n` increments of a cell that starts at zero, each
/// applied at its own successful compare-and-swap in whatever order, leave
/// exactly `n` (for `n` that fits).
pub proof fn lemma_no_lost_increments(n: nat)
    requires
        n <= u128::MAX,
    ensures
        after_increments(0, n) == n,
    decreases n,
{
    if n > 0 {
        lemma_no_lost_increments((n - 1) as nat);
        lemma_wrap_by(n as int, 0);
    }
}

} // verus!
