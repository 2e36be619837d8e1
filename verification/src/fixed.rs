//! Saturating Q16.16 fixed-point arithmetic.
//!
//! A coordinate is an `i64` holding the real value multiplied by 65536.
//! Every operation computes exactly in 128-bit intermediates and then
//! saturates the result into [-2^47, 2^47], so all operations are total:
//! no input can overflow, and no function here needs a precondition.

use vstd::prelude::*;

verus! {

/// Fixed-point scalar: the represented value times 65536.
pub type Fx = i64;

/// The fixed-point unit (1.0).
pub const FX_ONE: i64 = 65536;

/// Saturation bound: 2^47, about 2^31 whole units.
pub const FX_LIM: i64 = 140737488355328;

/// Saturate a mathematical integer into [-FX_LIM, FX_LIM].
pub open spec fn sat(x: int) -> int {
    if x > FX_LIM { FX_LIM as int } else if x < -FX_LIM { -FX_LIM as int } else { x }
}

/// Truncating division (round toward zero) by a positive divisor,
/// as the underlying machine division behaves.
pub open spec fn tdiv(a: int, b: int) -> int {
    if a >= 0 { a / b } else { -((-a) / b) }
}

/// Saturating fixed-point product: (a * b) / 65536, rounded toward zero.
pub open spec fn fxmul(a: int, b: int) -> int {
    sat(tdiv(a * b, 65536))
}

/// Saturating sum.
pub open spec fn fxadd(a: int, b: int) -> int {
    sat(a + b)
}

/// Saturating difference.
pub open spec fn fxsub(a: int, b: int) -> int {
    sat(a - b)
}

/// Saturating negation.
pub open spec fn fxneg(a: int) -> int {
    sat(-a)
}

/// Saturating product with a plain integer scalar.
pub open spec fn fxscale(a: int, k: int) -> int {
    sat(a * k)
}

/// Saturating truncating division by a positive plain integer.
pub open spec fn fxdivi(a: int, k: int) -> int {
    sat(tdiv(a, k))
}

/// Saturating fixed-point quotient: (a * 65536) / b, rounded toward
/// zero; division by zero yields zero, making the operation total.
pub open spec fn fxdiv(a: int, b: int) -> int {
    if b == 0 {
        0
    } else if b > 0 {
        sat(tdiv(a * 65536, b))
    } else {
        sat(-tdiv(a * 65536, -b))
    }
}

/// Absolute value, saturated.
pub open spec fn fxabs(a: int) -> int {
    if a >= 0 { sat(a) } else { sat(-a) }
}

/// The larger of two values.
pub open spec fn fxmax(a: int, b: int) -> int {
    if a >= b { a } else { b }
}

/// The smaller of two values.
pub open spec fn fxmin(a: int, b: int) -> int {
    if a <= b { a } else { b }
}

/// Floor of the square root, defined for every integer (zero below zero).
pub open spec fn sqrt_floor(n: int) -> int
    decreases n,
{
    if n <= 0 {
        0
    } else {
        let r = sqrt_floor(n - 1);
        if (r + 1) * (r + 1) <= n { r + 1 } else { r }
    }
}

/// Euclidean length of the vector (dx, dy), saturated.
pub open spec fn fxlen(dx: int, dy: int) -> int {
    sat(sqrt_floor(dx * dx + dy * dy))
}

/// `sqrt_floor(n)` is the unique nonnegative root: it squares to at
/// most `n` while its successor squares above `n`.
pub proof fn lemma_sqrt_floor_props(n: int)
    requires
        n >= 0,
    ensures
        sqrt_floor(n) >= 0,
        sqrt_floor(n) * sqrt_floor(n) <= n,
        n < (sqrt_floor(n) + 1) * (sqrt_floor(n) + 1),
    decreases n,
{
    if n == 0 {
    } else {
        lemma_sqrt_floor_props(n - 1);
        let r = sqrt_floor(n - 1);
        if (r + 1) * (r + 1) <= n {
            assert(n - 1 < (r + 1) * (r + 1));
            assert(n < (r + 2) * (r + 2)) by (nonlinear_arith)
                requires n <= (r + 1) * (r + 1), r >= 0,
            {}
        } else {
        }
    }
}

/// Any nonnegative `r` with `r*r <= n < (r+1)*(r+1)` equals `sqrt_floor(n)`.
pub proof fn lemma_sqrt_floor_unique(n: int, r: int)
    requires
        n >= 0,
        r >= 0,
        r * r <= n,
        n < (r + 1) * (r + 1),
    ensures
        r == sqrt_floor(n),
{
    lemma_sqrt_floor_props(n);
    let s = sqrt_floor(n);
    if r < s {
        assert((r + 1) * (r + 1) <= s * s) by (nonlinear_arith)
            requires 0 <= r, r < s,
        {}
    } else if s < r {
        assert((s + 1) * (s + 1) <= r * r) by (nonlinear_arith)
            requires 0 <= s, s < r,
        {}
    }
}

/// The fixed-point encoding of a whole number.
pub open spec fn fx_of(k: int) -> int {
    sat(k * 65536)
}

/// Multiplying by the fixed-point unit only saturates.
pub proof fn lemma_fxmul_unit(v: int)
    ensures
        fxmul(65536, v) == sat(v),
        fxmul(v, 65536) == sat(v),
{
    if v >= 0 {
        assert((65536 * v) / 65536 == v) by (nonlinear_arith)
            requires v >= 0,
        {}
        assert((v * 65536) / 65536 == v) by (nonlinear_arith)
            requires v >= 0,
        {}
    } else {
        assert((-(65536 * v)) / 65536 == -v) by (nonlinear_arith)
            requires v < 0,
        {}
        assert((-(v * 65536)) / 65536 == -v) by (nonlinear_arith)
            requires v < 0,
        {}
    }
}

/// A vector length is never negative.
pub proof fn lemma_fxlen_nonneg(dx: int, dy: int)
    ensures
        0 <= fxlen(dx, dy) <= FX_LIM,
{
    assert(dx * dx + dy * dy >= 0) by (nonlinear_arith) {}
    lemma_sqrt_floor_props(dx * dx + dy * dy);
}

/// A quotient of a part by a whole stays inside the fixed-point unit.
pub proof fn lemma_ratio_in_unit(a: int, b: int)
    requires
        0 <= a <= b,
        0 < b,
    ensures
        0 <= fxdiv(a, b) <= 65536,
{
    assert((a * 65536) / b <= 65536) by (nonlinear_arith)
        requires 0 <= a <= b, 0 < b,
    {}
    assert((a * 65536) / b >= 0) by (nonlinear_arith)
        requires 0 <= a, 0 < b,
    {}
}

/// Saturate a 128-bit intermediate back into a fixed-point scalar.
fn sat128(x: i128) -> (r: i64)
    ensures
        r as int == sat(x as int),
{
    if x > 140737488355328i128 {
        140737488355328i64
    } else if x < -140737488355328i128 {
        -140737488355328i64
    } else {
        x as i64
    }
}

/// Truncating division of a 128-bit intermediate by a positive divisor.
fn tdiv128(a: i128, b: i128) -> (r: i128)
    requires
        0 < b,
        -0x40000000000000000000000000000000 < a,
    ensures
        r as int == tdiv(a as int, b as int),
{
    if a >= 0 {
        let q: u128 = (a as u128) / (b as u128);
        proof {
            assert(q <= a as u128) by (nonlinear_arith)
                requires q == (a as u128) / (b as u128), b as u128 >= 1,
            {}
        }
        q as i128
    } else {
        let n: i128 = -a;
        let q: u128 = (n as u128) / (b as u128);
        proof {
            assert(q <= n as u128) by (nonlinear_arith)
                requires q == (n as u128) / (b as u128), b as u128 >= 1,
            {}
        }
        -(q as i128)
    }
}

/// Exact 128-bit product of two fixed-point scalars.
fn wide_mul(a: i64, b: i64) -> (r: i128)
    ensures
        r as int == (a as int) * (b as int),
        -0x40000000000000000000000000000000 < r as int,
        r as int <= 0x40000000000000000000000000000000,
{
    proof {
        assert((a as int) * (b as int) <= 0x40000000000000000000000000000000
            && (a as int) * (b as int) > -0x40000000000000000000000000000000) by (nonlinear_arith)
            requires
                -0x8000000000000000 <= a as int <= 0x7FFFFFFFFFFFFFFF,
                -0x8000000000000000 <= b as int <= 0x7FFFFFFFFFFFFFFF,
        {}
    }
    (a as i128) * (b as i128)
}

/// Saturating fixed-point product.
pub fn fx_mul(a: Fx, b: Fx) -> (r: Fx)
    ensures
        r as int == fxmul(a as int, b as int),
{
    let p: i128 = wide_mul(a, b);
    sat128(tdiv128(p, 65536))
}

/// Saturating sum.
pub fn fx_add(a: Fx, b: Fx) -> (r: Fx)
    ensures
        r as int == fxadd(a as int, b as int),
{
    sat128((a as i128) + (b as i128))
}

/// Saturating difference.
pub fn fx_sub(a: Fx, b: Fx) -> (r: Fx)
    ensures
        r as int == fxsub(a as int, b as int),
{
    sat128((a as i128) - (b as i128))
}

/// Saturating negation.
pub fn fx_neg(a: Fx) -> (r: Fx)
    ensures
        r as int == fxneg(a as int),
{
    sat128(-(a as i128))
}

/// Saturating product with a plain integer scalar.
pub fn fx_scale(a: Fx, k: i64) -> (r: Fx)
    ensures
        r as int == fxscale(a as int, k as int),
{
    sat128(wide_mul(a, k))
}

/// Saturating truncating division by a positive plain integer.
pub fn fx_divi(a: Fx, k: i64) -> (r: Fx)
    requires
        0 < k,
    ensures
        r as int == fxdivi(a as int, k as int),
{
    sat128(tdiv128(a as i128, k as i128))
}

/// Saturating fixed-point quotient; division by zero yields zero.
pub fn fx_div(a: Fx, b: Fx) -> (r: Fx)
    ensures
        r as int == fxdiv(a as int, b as int),
{
    if b == 0 {
        0
    } else {
        let n: i128 = wide_mul(a, 65536);
        if b > 0 {
            sat128(tdiv128(n, b as i128))
        } else {
            let d: i128 = -(b as i128);
            sat128(-tdiv128(n, d))
        }
    }
}

/// The fixed-point encoding of a whole number.
pub fn fx_from(k: i64) -> (r: Fx)
    ensures
        r as int == fx_of(k as int),
{
    sat128(wide_mul(k, 65536))
}

/// Absolute value, saturated.
pub fn fx_abs(a: Fx) -> (r: Fx)
    ensures
        r as int == fxabs(a as int),
{
    if a >= 0 {
        sat128(a as i128)
    } else {
        sat128(-(a as i128))
    }
}

/// The larger of two values.
pub fn fx_max(a: Fx, b: Fx) -> (r: Fx)
    ensures
        r as int == fxmax(a as int, b as int),
{
    if a >= b { a } else { b }
}

/// The smaller of two values.
pub fn fx_min(a: Fx, b: Fx) -> (r: Fx)
    ensures
        r as int == fxmin(a as int, b as int),
{
    if a <= b { a } else { b }
}

/// Euclidean length of the vector (dx, dy), saturated.
pub fn fx_len(dx: Fx, dy: Fx) -> (r: Fx)
    ensures
        r as int == fxlen(dx as int, dy as int),
        r >= 0,
{
    let px: i128 = wide_mul(dx, dx);
    let py: i128 = wide_mul(dy, dy);
    proof {
        assert(px >= 0) by (nonlinear_arith)
            requires px as int == (dx as int) * (dx as int),
        {}
        assert(py >= 0) by (nonlinear_arith)
            requires py as int == (dy as int) * (dy as int),
        {}
    }
    let n: u128 = (px as u128) + (py as u128);
    let root: u128 = sqrt_u128(n);
    proof {
        lemma_sqrt_floor_unique(n as int, root as int);
    }
    sat128(root as i128)
}

/// Floor of the square root of a 128-bit value, by bisection.
fn sqrt_u128(n: u128) -> (r: u128)
    ensures
        r * r <= n,
        n < (r + 1) * (r + 1),
        r < 0x10000000000000000,
{
    let mut lo: u128 = 0;
    let mut hi: u128 = 0x10000000000000000;
    proof {
        assert(n < hi * hi) by (nonlinear_arith)
            requires hi == 0x10000000000000000u128, n <= u128::MAX,
        {}
    }
    while hi - lo > 1
        invariant
            lo < hi,
            hi <= 0x10000000000000000,
            lo * lo <= n,
            n < hi * hi,
        decreases hi - lo,
    {
        let mid: u128 = lo + (hi - lo) / 2;
        assert(lo < mid < hi);
        proof {
            assert(mid * mid < 0x100000000000000000000000000000000) by (nonlinear_arith)
                requires mid < 0x10000000000000000u128,
            {}
        }
        let sq: u128 = mid * mid;
        if sq <= n {
            lo = mid;
        } else {
            hi = mid;
        }
    }
    assert(hi == lo + 1);
    lo
}

} // verus!
