use vstd::prelude::*;

verus! {

/// 2^128: the number of 128-bit values.
pub open spec fn modulus() -> int {
    u128::MAX as int + 1
}

/// The 128-bit value congruent to `x`.
pub open spec fn wrap(x: int) -> u128 {
    (x % modulus()) as u128
}

/// The two's-complement reading of a 128-bit pattern.
pub open spec fn signed(v: u128) -> int {
    if v <= i128::MAX {
        v as int
    } else {
        v as int - modulus()
    }
}

/// The two's-complement reading of a 64-bit pattern.
pub open spec fn signed64(v: u64) -> int {
    if v <= i64::MAX {
        v as int
    } else {
        v as int - (u64::MAX as int + 1)
    }
}

/// `wrap` subtracts the multiple of 2^128 that brings `x` into range.
pub proof fn lemma_wrap_by(x: int, k: int)
    requires
        0 <= x - k * modulus() < modulus(),
    ensures
        wrap(x) == x - k * modulus(),
{
    vstd::arithmetic::div_mod::lemma_fundamental_div_mod_converse(
        x,
        modulus(),
        k,
        x - k * modulus(),
    );
}

/// Values that differ by a multiple of 2^128 wrap to the same value.
pub proof fn lemma_wrap_congruent(x: int, j: int)
    ensures
        wrap(x + j * modulus()) == wrap(x),
{
    let m = modulus();
    vstd::arithmetic::div_mod::lemma_fundamental_div_mod(x, m);
    vstd::arithmetic::div_mod::lemma_mod_bound(x, m);
    vstd::arithmetic::div_mod::lemma_fundamental_div_mod_converse(
        x + j * m,
        m,
        x / m + j,
        x % m,
    );
}

/// The two's-complement bit pattern of a signed 128-bit integer.
pub open spec fn bits_of(x: i128) -> u128 {
    if x >= 0 {
        x as u128
    } else {
        (x + modulus()) as u128
    }
}

/// The signed 128-bit integer congruent to `x`.
pub open spec fn iwrap(x: int) -> int {
    signed(wrap(x))
}

pub open spec fn add_of(a: u128, b: u128) -> u128 {
    wrap(a + b)
}

pub open spec fn sub_of(a: u128, b: u128) -> u128 {
    wrap(a - b)
}

pub open spec fn neg_of(a: u128) -> u128 {
    wrap(-a)
}

pub open spec fn nand_of(a: u128, b: u128) -> u128 {
    !(a & b)
}

/// The larger of two values read as signed integers.
pub open spec fn max_of(a: u128, b: u128) -> u128 {
    if signed(a) >= signed(b) {
        a
    } else {
        b
    }
}

/// The smaller of two values read as signed integers.
pub open spec fn min_of(a: u128, b: u128) -> u128 {
    if signed(a) <= signed(b) {
        a
    } else {
        b
    }
}

/// The larger of two values read as unsigned integers.
pub open spec fn umax_of(a: u128, b: u128) -> u128 {
    if a >= b {
        a
    } else {
        b
    }
}

/// The smaller of two values read as unsigned integers.
pub open spec fn umin_of(a: u128, b: u128) -> u128 {
    if a <= b {
        a
    } else {
        b
    }
}

} // verus!
