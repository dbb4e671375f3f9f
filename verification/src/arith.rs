//! Truncating fixed-point arithmetic shared by every moving entity: a scaled
//! multiply-divide that rounds toward zero, as the conversions between
//! millipixel velocities and millisecond time steps require.

use vstd::prelude::*;
use vstd::arithmetic::div_mod::{lemma_div_is_ordered, lemma_div_pos_is_pos};

verus! {

/// Integer division rounding toward zero (for positive divisors).
pub open spec fn tdiv(a: int, b: int) -> int {
    if a >= 0 {
        a / b
    } else {
        -((-a) / b)
    }
}

/// Truncated division never grows the magnitude of a bounded dividend:
/// if `|a| <= k * b` then `|tdiv(a, b)| <= k`.
pub proof fn lemma_tdiv_bounded(a: int, b: int, k: int)
    requires
        b >= 1,
        k >= 0,
        -(k * b) <= a <= k * b,
    ensures
        -k <= tdiv(a, b) <= k,
{
    if a >= 0 {
        lemma_div_pos_is_pos(a, b);
        lemma_div_is_ordered(a, k * b, b);
        assert((k * b) / b == k) by (nonlinear_arith)
            requires b >= 1
        ;
    } else {
        lemma_div_pos_is_pos(-a, b);
        lemma_div_is_ordered(-a, k * b, b);
        assert((k * b) / b == k) by (nonlinear_arith)
            requires b >= 1
        ;
    }
}

/// Computes `v * num / den` with the division truncated toward zero.
pub fn mul_div(v: i64, num: i64, den: i64) -> (r: i64)
    requires
        0 <= num,
        1 <= den,
        -(i64::MAX as int) <= v,
        v * num <= i64::MAX,
        -(i64::MAX as int) <= v * num,
    ensures
        r == tdiv(v * num, den as int),
{
    if v >= 0 {
        let p: u64 = (v as u64) * (num as u64);
        let q: u64 = p / (den as u64);
        proof {
            lemma_div_pos_is_pos(p as int, den as int);
            lemma_div_is_ordered(p as int, i64::MAX as int, den as int);
            lemma_div_is_ordered(0, p as int, den as int);
            assert((i64::MAX as int) / (den as int) <= i64::MAX as int) by (nonlinear_arith)
                requires den >= 1
            ;
        }
        q as i64
    } else {
        let m: i64 = -v;
        proof {
            assert(m * num == -(v * num)) by (nonlinear_arith)
                requires m == -v
            ;
        }
        let p: u64 = (m as u64) * (num as u64);
        let q: u64 = p / (den as u64);
        proof {
            lemma_div_pos_is_pos(p as int, den as int);
            lemma_div_is_ordered(p as int, i64::MAX as int, den as int);
            assert((i64::MAX as int) / (den as int) <= i64::MAX as int) by (nonlinear_arith)
                requires den >= 1
            ;
        }
        -(q as i64)
    }
}

/// Clamps `v` to the interval `[lo, hi]`.
pub fn clamp_i64(v: i64, lo: i64, hi: i64) -> (r: i64)
    requires
        lo <= hi,
    ensures
        r == clamped(v as int, lo as int, hi as int),
{
    if v < lo {
        lo
    } else if v > hi {
        hi
    } else {
        v
    }
}

/// The value of `v` pushed back into `[lo, hi]`.
pub open spec fn clamped(v: int, lo: int, hi: int) -> int {
    if v < lo {
        lo
    } else if v > hi {
        hi
    } else {
        v
    }
}

} // verus!
