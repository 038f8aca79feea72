//! Fixed-point sample arithmetic.
//!
//! A sample or control value is an `i64` holding a real amplitude scaled by
//! [`UNIT`]. Addition, subtraction and scaling saturate at `i64::MIN` /
//! `i64::MAX`; scaling truncates toward zero. Every operation here is total
//! and its exact result is stated in its contract.

use vstd::prelude::*;
use vstd::arithmetic::mul::lemma_mul_upper_bound;

verus! {

/// The fixed-point representation of the amplitude 1.0.
pub const UNIT: i64 = 1_000_000_000;

/// A half in fixed-point representation.
pub const HALF_UNIT: i64 = 500_000_000;

/// A tick counter stepped forward, stopping at its largest value.
pub open spec fn count_up(n: u64) -> u64 {
    if n < u64::MAX {
        (n + 1) as u64
    } else {
        n
    }
}

/// Magnitude of a mathematical integer.
pub open spec fn abs_i(v: int) -> int {
    if v < 0 {
        -v
    } else {
        v
    }
}

/// Saturation of a mathematical integer to the `i64` range.
pub open spec fn sat(v: int) -> int {
    if v > i64::MAX {
        i64::MAX as int
    } else if v < i64::MIN {
        i64::MIN as int
    } else {
        v
    }
}

/// Division truncating toward zero, as machine division does.
pub open spec fn tdiv(p: int, q: int) -> int
    recommends
        q != 0,
{
    let m = abs_i(p) / abs_i(q);
    if (p < 0) != (q < 0) {
        -m
    } else {
        m
    }
}

/// Exact value of the saturating fixed-point product `a * b / UNIT`.
pub open spec fn fxmul(a: int, b: int) -> int {
    sat(tdiv(a * b, UNIT as int))
}

/// Exact value of the saturating fixed-point quotient `a * UNIT / b`,
/// with 0 standing in for the undefined quotient by zero.
pub open spec fn fxdiv(a: int, b: int) -> int {
    if b == 0 {
        0
    } else {
        sat(tdiv(a * (UNIT as int), b))
    }
}

/// Clamp to the nominal amplitude range `[-UNIT, UNIT]`.
pub open spec fn clamped_unit(v: int) -> int {
    if v < -(UNIT as int) {
        -(UNIT as int)
    } else if v > UNIT as int {
        UNIT as int
    } else {
        v
    }
}

/// Saturating addition of two samples.
pub fn sat_add(a: i64, b: i64) -> (r: i64)
    ensures
        r as int == sat(a + b),
{
    let s: i128 = a as i128 + b as i128;
    if s > i64::MAX as i128 {
        i64::MAX
    } else if s < i64::MIN as i128 {
        i64::MIN
    } else {
        s as i64
    }
}

/// Saturating subtraction of two samples.
pub fn sat_sub(a: i64, b: i64) -> (r: i64)
    ensures
        r as int == sat(a - b),
{
    let s: i128 = a as i128 - b as i128;
    if s > i64::MAX as i128 {
        i64::MAX
    } else if s < i64::MIN as i128 {
        i64::MIN
    } else {
        s as i64
    }
}

/// Magnitude of an `i64`, widened so that `i64::MIN` needs no special case.
fn magnitude(a: i64) -> (m: u64)
    ensures
        m as int == abs_i(a as int),
{
    if a < 0 {
        (-(a as i128)) as u64
    } else {
        a as u64
    }
}

/// Saturate a signed magnitude to the `i64` range.
fn sat_signed(q: u128, neg: bool) -> (r: i64)
    ensures
        r as int == sat(if neg { -(q as int) } else { q as int }),
{
    if neg {
        if q >= 9223372036854775808u128 {
            i64::MIN
        } else {
            -(q as i64)
        }
    } else {
        if q > i64::MAX as u128 {
            i64::MAX
        } else {
            q as i64
        }
    }
}

/// Saturating fixed-point product: `a` scaled by the fixed-point factor `b`.
pub fn mul_scaled(a: i64, b: i64) -> (r: i64)
    ensures
        r as int == fxmul(a as int, b as int),
{
    let am: u64 = magnitude(a);
    let bm: u64 = magnitude(b);
    proof {
        lemma_mul_upper_bound(am as int, u64::MAX as int, bm as int, u64::MAX as int);
        assert((a as int) * (b as int) == if (a < 0) != (b < 0) {
            -((am as int) * (bm as int))
        } else {
            (am as int) * (bm as int)
        }) by (nonlinear_arith)
            requires
                am as int == abs_i(a as int),
                bm as int == abs_i(b as int),
        ;
    }
    let p: u128 = (am as u128) * (bm as u128);
    let q: u128 = p / (UNIT as u128);
    sat_signed(q, (a < 0) != (b < 0) && q > 0)
}

/// Saturating fixed-point quotient of `a` by `b`; yields 0 when `b` is 0.
pub fn div_scaled(a: i64, b: i64) -> (r: i64)
    ensures
        r as int == fxdiv(a as int, b as int),
{
    if b == 0 {
        0
    } else {
        let am: u64 = magnitude(a);
        let bm: u64 = magnitude(b);
        proof {
            lemma_mul_upper_bound(am as int, u64::MAX as int, UNIT as int, UNIT as int);
            assert((a as int) * (UNIT as int) == if a < 0 {
                -((am as int) * (UNIT as int))
            } else {
                (am as int) * (UNIT as int)
            }) by (nonlinear_arith)
                requires
                    am as int == abs_i(a as int),
            ;
        }
        let p: u128 = (am as u128) * (UNIT as u128);
        let q: u128 = p / (bm as u128);
        sat_signed(q, (a < 0) != (b < 0) && q > 0)
    }
}

/// Clamp a sample to the nominal amplitude range `[-UNIT, UNIT]`.
pub fn clamp_unit(v: i64) -> (r: i64)
    ensures
        r as int == clamped_unit(v as int),
{
    if v < -UNIT {
        -UNIT
    } else if v > UNIT {
        UNIT
    } else {
        v
    }
}

/// Scaling by zero yields zero, whichever side the zero is on.
pub proof fn lemma_fxmul_zero(v: int)
    ensures
        fxmul(0, v) == 0,
        fxmul(v, 0) == 0,
{
}

/// Scaling by `UNIT` (the fixed-point 1.0) is exact: it changes nothing.
pub proof fn lemma_fxmul_unit(v: int)
    requires
        i64::MIN <= v <= i64::MAX,
    ensures
        fxmul(UNIT as int, v) == v,
        fxmul(v, UNIT as int) == v,
{
    let u = UNIT as int;
    assert(abs_i(u * v) == u * abs_i(v)) by (nonlinear_arith)
        requires
            u >= 1,
    ;
    assert((u * abs_i(v)) / u == abs_i(v)) by (nonlinear_arith)
        requires
            u >= 1,
            abs_i(v) >= 0,
    ;
    assert(u * v == v * u);
}

/// Scaling an even value by `HALF_UNIT` (the fixed-point 0.5) is an exact
/// halving.
pub proof fn lemma_fxmul_half_even(v: int)
    requires
        i64::MIN <= v <= i64::MAX,
        v % 2 == 0,
    ensures
        fxmul(v, HALF_UNIT as int) == v / 2,
        fxmul(HALF_UNIT as int, v) == v / 2,
{
    let u = UNIT as int;
    let h = HALF_UNIT as int;
    let k = v / 2;
    assert(v == 2 * k);
    assert(abs_i(v * h) == abs_i(k) * u) by (nonlinear_arith)
        requires
            h >= 1,
            u == 2 * h,
            v == 2 * k,
    ;
    assert((abs_i(k) * u) / u == abs_i(k)) by (nonlinear_arith)
        requires
            u >= 1,
            abs_i(k) >= 0,
    ;
    assert(abs_i(k) / 1 == abs_i(k));
    assert(tdiv(v * h, u) == k) by {
        if v < 0 {
            assert(k < 0);
            assert(v * h < 0) by (nonlinear_arith)
                requires
                    v < 0,
                    h >= 1,
            ;
        } else if v > 0 {
            assert(k >= 0);
            assert(v * h >= 0) by (nonlinear_arith)
                requires
                    v >= 0,
                    h >= 1,
            ;
        }
    }
    assert(v * h == h * v);
}

/// The smaller of two samples.
pub fn min64(a: i64, b: i64) -> (r: i64)
    ensures
        r as int == if a as int <= b as int { a as int } else { b as int },
{
    if a <= b {
        a
    } else {
        b
    }
}

/// The larger of two samples.
pub fn max64(a: i64, b: i64) -> (r: i64)
    ensures
        r as int == if a as int >= b as int { a as int } else { b as int },
{
    if a >= b {
        a
    } else {
        b
    }
}

} // verus!
