//! Fixed-point arithmetic helpers for the compensation formulas.
//!
//! The datasheet formulas are written over 32-bit and 64-bit signed
//! intermediates whose multiplications may exceed the stated width and whose
//! right shifts are arithmetic (they round toward negative infinity). The
//! helpers here give those operations exact mathematical contracts:
//! [`wrap_i32`] / [`wrap_i64`] name two's-complement wrap-around at the
//! datasheet's width, and floor division stands for the arithmetic right
//! shift.

use vstd::prelude::*;

verus! {

use vstd::arithmetic::div_mod::{
    lemma_div_decreases, lemma_div_nonincreasing, lemma_div_pos_is_pos, lemma_fundamental_div_mod,
    lemma_fundamental_div_mod_converse, lemma_mod_add_multiples_vanish, lemma_small_mod,
};
use vstd::wrapping::{i32_specs, i64_specs};

/// An unbounded integer reduced into the range of `i32`, as two's-complement
/// arithmetic at that width reduces it.
pub open spec fn wrap_i32(x: int) -> int {
    i32_specs::signed_crop(x) as int
}

/// An unbounded integer reduced into the range of `i64`, as two's-complement
/// arithmetic at that width reduces it.
pub open spec fn wrap_i64(x: int) -> int {
    i64_specs::signed_crop(x) as int
}

/// Wrap-around reduction is the identity on values already in range, and a
/// single shift by the range's size just outside it.
pub proof fn lemma_wrap_i64_cases(s: int)
    requires
        -0x1_0000_0000_0000_0000 <= s < 0x1_0000_0000_0000_0000,
    ensures
        wrap_i64(s) == (if s > 0x7fff_ffff_ffff_ffff {
            s - 0x1_0000_0000_0000_0000
        } else if s < -0x8000_0000_0000_0000 {
            s + 0x1_0000_0000_0000_0000
        } else {
            s
        }),
{
    let range: int = 0x1_0000_0000_0000_0000;
    if s >= 0 {
        lemma_small_mod(s as nat, range as nat);
    } else {
        lemma_mod_add_multiples_vanish(s, range);
        lemma_small_mod((s + range) as nat, range as nat);
    }
}

/// 32-bit multiplication with two's-complement wrap-around.
pub fn mul_wrap_i32(a: i32, b: i32) -> (r: i32)
    ensures
        r as int == wrap_i32(a as int * b as int),
{
    a.wrapping_mul(b)
}

/// 64-bit multiplication with two's-complement wrap-around.
pub fn mul_wrap_i64(a: i64, b: i64) -> (r: i64)
    ensures
        r as int == wrap_i64(a as int * b as int),
{
    a.wrapping_mul(b)
}

/// 64-bit addition with two's-complement wrap-around.
pub fn add_wrap_i64(a: i64, b: i64) -> (r: i64)
    ensures
        r as int == wrap_i64(a as int + b as int),
{
    proof {
        lemma_wrap_i64_cases(a as int + b as int);
    }
    a.wrapping_add(b)
}

/// 64-bit subtraction with two's-complement wrap-around.
pub fn sub_wrap_i64(a: i64, b: i64) -> (r: i64)
    ensures
        r as int == wrap_i64(a as int - b as int),
{
    proof {
        lemma_wrap_i64_cases(a as int - b as int);
    }
    a.wrapping_sub(b)
}

/// Rust's `/` truncates toward zero; related here to the floor quotient
/// (which `/` means on Verus's unbounded integers when the divisor is
/// positive).
proof fn lemma_trunc_vs_floor(x: int, d: int)
    requires
        d >= 1,
        x < 0,
    ensures
        (-x) % d == 0 ==> x / d == -((-x) / d),
        (-x) % d != 0 ==> x / d == -((-x) / d) - 1,
{
    let m = -x;
    lemma_fundamental_div_mod(m, d);
    if m % d == 0 {
        assert(x == -(d * (m / d))) by {
            assert(m == d * (m / d) + m % d);
        }
        assert(x == (-(m / d)) * d + 0) by (nonlinear_arith)
            requires
                x == -(d * (m / d)),
        ;
        lemma_fundamental_div_mod_converse(x, d, -(m / d), 0);
    } else {
        assert(x == (-(m / d) - 1) * d + (d - m % d)) by (nonlinear_arith)
            requires
                m == d * (m / d) + m % d,
                x == -m,
        ;
        lemma_fundamental_div_mod_converse(x, d, -(m / d) - 1, d - m % d);
    }
}

/// Floor division at 32 bits: the arithmetic right shift when the divisor is
/// a power of two.
pub fn div_floor_i32(x: i32, d: i32) -> (r: i32)
    requires
        1 <= d,
    ensures
        r as int == x as int / d as int,
{
    proof {
        if x >= 0 {
            lemma_div_pos_is_pos(x as int, d as int);
            lemma_div_nonincreasing(x as int, d as int);
        } else {
            lemma_div_pos_is_pos(-(x as int), d as int);
            lemma_div_nonincreasing(-(x as int), d as int);
            lemma_trunc_vs_floor(x as int, d as int);
        }
    }
    let q = x.checked_div(d).unwrap();
    let m = x.checked_rem(d).unwrap();
    if m < 0 {
        proof {
            lemma_div_decreases(-(x as int), d as int);
        }
        q - 1
    } else {
        q
    }
}

/// Floor division at 64 bits: the arithmetic right shift when the divisor is
/// a power of two.
pub fn div_floor_i64(x: i64, d: i64) -> (r: i64)
    requires
        1 <= d,
    ensures
        r as int == x as int / d as int,
{
    proof {
        if x >= 0 {
            lemma_div_pos_is_pos(x as int, d as int);
            lemma_div_nonincreasing(x as int, d as int);
        } else {
            lemma_div_pos_is_pos(-(x as int), d as int);
            lemma_div_nonincreasing(-(x as int), d as int);
            lemma_trunc_vs_floor(x as int, d as int);
        }
    }
    let q = x.checked_div(d).unwrap();
    let m = x.checked_rem(d).unwrap();
    if m < 0 {
        proof {
            lemma_div_decreases(-(x as int), d as int);
        }
        q - 1
    } else {
        q
    }
}

/// 64-bit division as the datasheet's C code performs it: truncation toward
/// zero, with the one unrepresentable quotient (the smallest value divided by
/// minus one) wrapping back to the smallest value.
pub open spec fn tdiv_i64(x: int, d: int) -> int
    recommends
        d != 0,
{
    let q = if x >= 0 && d > 0 {
        x / d
    } else if x < 0 && d < 0 {
        (-x) / (-d)
    } else if x < 0 {
        -((-x) / d)
    } else {
        -(x / (-d))
    };
    if q > 0x7fff_ffff_ffff_ffff {
        -0x8000_0000_0000_0000
    } else {
        q
    }
}

/// Executable truncating division matching [`tdiv_i64`].
pub fn tdiv64(x: i64, d: i64) -> (r: i64)
    requires
        d != 0,
    ensures
        r as int == tdiv_i64(x as int, d as int),
{
    match x.checked_div(d) {
        Some(q) => q,
        None => i64::MIN,
    }
}

} // verus!
