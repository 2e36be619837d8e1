//! Fixed-point trigonometry.
//!
//! Angles are Q16.16 radians. `sin_fx` and `cos_fx` reduce the angle
//! modulo a full turn and evaluate a rational (Bhaskara-style)
//! approximation of the sine on a half turn; `atan2_fx` combines a
//! quadratic approximation of the arctangent on one octant. The
//! functions are exact integer computations: each is specified by its
//! own spec twin, which the synthesis models reuse, so every result is
//! pinned down bit for bit.

use vstd::prelude::*;
use crate::fixed::{Fx, sat, fxabs, fxadd, fxdiv, fx_abs, fx_add, fx_div};
use vstd::arithmetic::div_mod::{lemma_fundamental_div_mod, lemma_fundamental_div_mod_converse};

verus! {

/// Half turn (pi) in Q16.16 radians.
pub const PI_FX: i64 = 205887;

/// Full turn (two pi) in Q16.16 radians.
pub const TWO_PI_FX: i64 = 411775;

/// Quarter turn (pi / 2) in Q16.16 radians.
pub const HALF_PI_FX: i64 = 102944;

/// Rational sine approximation on a half turn: for `x` in
/// [0, PI_FX], roughly sin(x/65536) * 65536.
pub open spec fn bhask(x: int) -> int {
    let t = x * (205887 - x);
    (16 * t * 65536) / (5 * 205887 * 205887 - 4 * t)
}

/// Sine of a Q16.16 radian angle, in [-65536, 65536].
pub open spec fn sinq(a: int) -> int {
    let r = sat(a) % 411775;
    if r < 205887 { bhask(r) } else { -bhask(r - 205887) }
}

/// Cosine of a Q16.16 radian angle, as the sine shifted a quarter turn.
pub open spec fn cosq(a: int) -> int {
    sinq(fxadd(a, 102944))
}

/// Quadratic arctangent approximation on one octant: for `z` in
/// [0, 65536] (a ratio in [0, 1]), roughly atan(z/65536) * 65536.
pub open spec fn atanz(z: int) -> int {
    (51472 * z) / 65536 + (17891 * ((z * (65536 - z)) / 65536)) / 65536
}

/// Angle of the vector (x, y) in Q16.16 radians, in (-PI_FX, PI_FX];
/// the zero vector maps to angle zero.
pub open spec fn atan2q(y: int, x: int) -> int {
    let ax = fxabs(x);
    let ay = fxabs(y);
    if ax == 0 && ay == 0 {
        0
    } else {
        let base = if ax >= ay { atanz(fxdiv(ay, ax)) } else { 102944 - atanz(fxdiv(ax, ay)) };
        let quad = if x >= 0 { base } else { 205887 - base };
        if y >= 0 { quad } else { -quad }
    }
}

/// Euclidean remainder of a saturated angle by a full turn.
fn emod_two_pi(a: i64) -> (r: i64)
    ensures
        r as int == sat(a as int) % 411775,
        0 <= r < 411775,
{
    let b: i64 = if a > 140737488355328i64 {
        140737488355328i64
    } else if a < -140737488355328i64 {
        -140737488355328i64
    } else {
        a
    };
    if b >= 0 {
        let r: u64 = (b as u64) % 411775;
        proof {
            lemma_fundamental_div_mod(b as int, 411775);
        }
        r as i64
    } else {
        let n: u64 = (-b) as u64;
        let t: u64 = n % 411775;
        proof {
            lemma_fundamental_div_mod(n as int, 411775);
            let q = n as int / 411775;
            if t == 0 {
                lemma_fundamental_div_mod_converse(b as int, 411775, -q, 0);
            } else {
                lemma_fundamental_div_mod_converse(b as int, 411775, -q - 1, 411775 - t);
            }
        }
        if t == 0 {
            0
        } else {
            411775 - (t as i64)
        }
    }
}

/// Sine approximation on a half turn; the exec twin of `bhask`.
fn bhask_fx(x: i64) -> (r: i64)
    requires
        0 <= x <= 205887,
    ensures
        r as int == bhask(x as int),
        0 <= r <= 65536,
{
    proof {
        assert(4 * ((x as int) * (205887 - x as int)) <= 205887 * 205887
            && 0 <= (x as int) * (205887 - x as int)) by (nonlinear_arith)
            requires 0 <= x as int <= 205887,
        {}
    }
    let t: u64 = (x as u64) * (205887 - x as u64);
    let num: u64 = 16 * t * 65536;
    let den: u64 = 211947283845 - 4 * t;
    let r: u64 = num / den;
    proof {
        assert(5 * 205887 * 205887 - 4 * (t as int) == den as int);
        assert(num as int <= 65536 * den as int) by (nonlinear_arith)
            requires
                num as int == 16 * (t as int) * 65536,
                den as int == 211947283845 - 4 * (t as int),
                4 * (t as int) <= 205887 * 205887,
        {}
        assert(num / den <= 65536) by (nonlinear_arith)
            requires num as int <= 65536 * (den as int), den as int >= 1,
        {}
    }
    r as i64
}

/// Sine of a Q16.16 radian angle; the exec twin of `sinq`.
pub fn sin_fx(a: Fx) -> (r: Fx)
    ensures
        r as int == sinq(a as int),
        -65536 <= r <= 65536,
{
    let m: i64 = emod_two_pi(a);
    if m < 205887 {
        bhask_fx(m)
    } else {
        let v: i64 = bhask_fx(m - 205887);
        -v
    }
}

/// Cosine of a Q16.16 radian angle; the exec twin of `cosq`.
pub fn cos_fx(a: Fx) -> (r: Fx)
    ensures
        r as int == cosq(a as int),
        -65536 <= r <= 65536,
{
    sin_fx(fx_add(a, 102944))
}

/// Arctangent approximation on one octant; the exec twin of `atanz`.
fn atan_z(z: i64) -> (r: i64)
    requires
        0 <= z <= 65536,
    ensures
        r as int == atanz(z as int),
        0 <= r <= 69363,
{
    let zu: u64 = z as u64;
    let first: u64 = (51472 * zu) / 65536;
    proof {
        assert(zu * (65536 - zu) <= 65536 * 65536) by (nonlinear_arith)
            requires zu <= 65536u64,
        {}
        assert(first <= 51472) by (nonlinear_arith)
            requires first as int == (51472 * (zu as int)) / 65536, zu <= 65536u64,
        {}
    }
    let curve: u64 = (zu * (65536 - zu)) / 65536;
    proof {
        assert(curve <= 65536) by (nonlinear_arith)
            requires
                curve as int == ((zu as int) * (65536 - zu as int)) / 65536,
                (zu as int) * (65536 - zu as int) <= 65536 * 65536,
        {}
    }
    let second: u64 = (17891 * curve) / 65536;
    proof {
        assert(second <= 17891) by (nonlinear_arith)
            requires second as int == (17891 * (curve as int)) / 65536, curve <= 65536u64,
        {}
    }
    let r: u64 = first + second;
    r as i64
}

/// Angle of the vector (x, y); the exec twin of `atan2q`.
pub fn atan2_fx(y: Fx, x: Fx) -> (r: Fx)
    ensures
        r as int == atan2q(y as int, x as int),
        -205887 <= r <= 205887,
{
    let ax: i64 = fx_abs(x);
    let ay: i64 = fx_abs(y);
    if ax == 0 && ay == 0 {
        return 0;
    }
    let base: i64 = if ax >= ay {
        let z: i64 = fx_div(ay, ax);
        proof {
            crate::fixed::lemma_ratio_in_unit(ay as int, ax as int);
        }
        atan_z(z)
    } else {
        let z: i64 = fx_div(ax, ay);
        proof {
            crate::fixed::lemma_ratio_in_unit(ax as int, ay as int);
        }
        102944 - atan_z(z)
    };
    let quad: i64 = if x >= 0 { base } else { 205887 - base };
    if y >= 0 { quad } else { -quad }
}

} // verus!
