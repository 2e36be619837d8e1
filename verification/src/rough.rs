//! Style configuration and the seeded rough-sketch generator.
//!
//! A `RoughGenerator` owns one seeded pseudo-random generator and is
//! created per synthesized element; every perturbation draws from it in
//! a fixed order, so the produced geometry is a function of the shape
//! parameters, the style and the seed alone. The contracts make that
//! explicit: each drawing method's result equals a spec-level model
//! applied to the inputs, the seed and the generator's draw position.

use vstd::prelude::*;
use crate::fixed::{Fx, fxadd, fxsub, fxneg, fxmul, fx_add, fx_sub, fx_neg, fx_mul};
use rand::SeedableRng;
use rand::RngCore;

verus! {

/// A point in Q16.16 fixed-point canvas coordinates.
#[derive(Clone, Copy, PartialEq, Eq, Structural, Debug)]
pub struct Point {
    pub x: Fx,
    pub y: Fx,
}

/// Build a point from mathematical coordinates; values outside the
/// `i64` range wrap, but every coordinate the engine produces is
/// saturated far inside that range.
pub open spec fn pt(x: int, y: int) -> Point {
    Point { x: x as i64, y: y as i64 }
}

/// Tunable parameters of the hand-drawn style, copied per call and
/// never mutated by the generator. Scalar fields are Q16.16.
#[derive(Clone, Copy, Debug)]
pub struct RoughOptions {
    /// Global perturbation multiplier; zero yields clean geometry.
    pub roughness: Fx,
    /// How far a line's midpoint bulges from straight.
    pub bowing: Fx,
    /// Nominal stroke width, used by jitter scaling and triangulation.
    pub stroke_width: Fx,
    /// Upper bound on per-endpoint jitter, clamped by segment length.
    pub max_randomness_offset: Fx,
    /// Baseline subdivision count for ellipses.
    pub curve_step_count: u32,
    /// If false, each edge is rendered twice with independent jitter.
    pub disable_multi_stroke: bool,
    /// Deterministic seed; absence means the fixed default seed.
    pub seed: Option<u64>,
    /// Catmull-Rom-style tightness for curve-through-points smoothing.
    pub curve_tightness: Fx,
    /// If true, line endpoints are not jittered (corners stay exact).
    pub preserve_vertices: bool,
    /// If true, shapes render as evenly spaced dot centers.
    pub dotted: bool,
}

impl RoughOptions {
    /// The default hand-drawn style.
    pub open spec fn default_style() -> RoughOptions {
        RoughOptions {
            roughness: 65536,
            bowing: 65536,
            stroke_width: 65536,
            max_randomness_offset: 131072,
            curve_step_count: 32,
            disable_multi_stroke: false,
            seed: None,
            curve_tightness: 0,
            preserve_vertices: false,
            dotted: false,
        }
    }
}

/// The same style with dotting switched off; segments re-dotted from
/// an already synthesized polyline use it so the recursion stops.
pub open spec fn dot_variant(o: RoughOptions) -> RoughOptions {
    RoughOptions { dotted: false, ..o }
}

impl Default for RoughOptions {
    fn default() -> (r: Self)
        ensures
            r == RoughOptions::default_style(),
    {
        RoughOptions {
            roughness: 65536,
            bowing: 65536,
            stroke_width: 65536,
            max_randomness_offset: 131072,
            curve_step_count: 32,
            disable_multi_stroke: false,
            seed: None,
            curve_tightness: 0,
            preserve_vertices: false,
            dotted: false,
        }
    }
}

/// Declares rand's `StdRng` so it can stand in a field: the verifier
/// treats a value of it as opaque, carried but never inspected.
#[verifier::external_type_specification]
#[verifier::external_body]
pub struct ExStdRng(rand::rngs::StdRng);

/// The value that a `StdRng` seeded through `seed_from_u64(seed)`
/// yields at draw position `index` of its `next_u32` sequence.
pub uninterp spec fn rng_stream(seed: u64, index: nat) -> u32;

/// The generator: one seeded pseudo-random source, created per
/// synthesized element; `draws` tracks the position in its sequence.
pub struct RoughGenerator {
    rng: rand::rngs::StdRng,
    seed: u64,
    draws: Ghost<nat>,
}

/// The seed a style resolves to: its own, or the fixed default.
pub open spec fn seed_num(seed: Option<u64>) -> u64 {
    match seed {
        Some(v) => v,
        None => 42,
    }
}

/// Relies on rand's `SeedableRng::seed_from_u64` for `StdRng`: builds
/// the generator whose draw sequence `rng_stream(seed, _)` names.
#[verifier::external_body]
fn seeded_std_rng(seed: u64) -> rand::rngs::StdRng {
    rand::rngs::StdRng::seed_from_u64(seed)
}

impl RoughGenerator {
    /// The seed this generator was built from.
    pub closed spec fn seed_val(&self) -> u64 {
        self.seed
    }

    /// How many values have been drawn from the generator so far.
    pub closed spec fn draw_count(&self) -> nat {
        self.draws@
    }

    /// Create a generator for one element; a missing seed falls back
    /// to the fixed default seed, so behavior stays reproducible.
    pub fn new(seed: Option<u64>) -> (g: RoughGenerator)
        ensures
            g.seed_val() == seed_num(seed),
            g.draw_count() == 0,
    {
        let s: u64 = match seed {
            Some(v) => v,
            None => 42,
        };
        RoughGenerator { rng: seeded_std_rng(s), seed: s, draws: Ghost(0nat) }
    }
}

/// Relies on rand's `RngCore::next_u32` for `StdRng`: a generator
/// seeded through `seed_from_u64(seed)` yields at each position of its
/// draw sequence a value determined by the seed and the position
/// alone, identical in every process for the pinned rand version;
/// `rng_stream` names that value. The fields of `RoughGenerator` are
/// private and only `RoughGenerator::new` builds one, which keeps
/// `seed` and `draws` in step with the hidden generator state.
#[verifier::external_body]
fn next_u32_draw(g: &mut RoughGenerator) -> (r: u32)
    ensures
        r == rng_stream(old(g).seed_val(), old(g).draw_count()),
        final(g).seed_val() == old(g).seed_val(),
        final(g).draw_count() == old(g).draw_count() + 1,
{
    g.rng.next_u32()
}

/// The uniform Q16.16 fraction in [0, 1) taken from draw `d`.
pub open spec fn rand_fx(seed: u64, d: nat) -> int {
    (rng_stream(seed, d) as int) / 65536
}

/// The jitter value `roughness * gain * (random * (max - min) + min)`
/// produced from draw `d`.
pub open spec fn offset_m(min: int, max: int, roughness: int, gain: int, seed: u64, d: nat) -> int {
    fxmul(fxmul(roughness, gain), fxadd(fxmul(rand_fx(seed, d), fxsub(max, min)), min))
}

/// The symmetric jitter value drawn from [-x, x].
pub open spec fn offset_opt_m(x: int, roughness: int, gain: int, seed: u64, d: nat) -> int {
    offset_m(fxneg(x), x, roughness, gain, seed, d)
}

impl RoughGenerator {
    /// One uniform fraction in [0, 1), as a Q16.16 value in [0, 65536).
    pub fn random(&mut self) -> (r: Fx)
        ensures
            r as int == rand_fx(old(self).seed_val(), old(self).draw_count()),
            0 <= r < 65536,
            final(self).seed_val() == old(self).seed_val(),
            final(self).draw_count() == old(self).draw_count() + 1,
    {
        let u: u32 = next_u32_draw(self);
        let f: u32 = u / 65536;
        f as i64
    }

    /// A jitter value in the given range, scaled by the style's
    /// roughness and the per-call roughness gain.
    pub fn offset(&mut self, min: Fx, max: Fx, options: &RoughOptions, roughness_gain: Fx) -> (r: Fx)
        ensures
            r as int == offset_m(
                min as int,
                max as int,
                options.roughness as int,
                roughness_gain as int,
                old(self).seed_val(),
                old(self).draw_count(),
            ),
            final(self).seed_val() == old(self).seed_val(),
            final(self).draw_count() == old(self).draw_count() + 1,
    {
        let rv: i64 = self.random();
        fx_mul(fx_mul(options.roughness, roughness_gain), fx_add(fx_mul(rv, fx_sub(max, min)), min))
    }

    /// A symmetric jitter value in [-x, x].
    pub fn offset_opt(&mut self, x: Fx, options: &RoughOptions, roughness_gain: Fx) -> (r: Fx)
        ensures
            r as int == offset_opt_m(
                x as int,
                options.roughness as int,
                roughness_gain as int,
                old(self).seed_val(),
                old(self).draw_count(),
            ),
            final(self).seed_val() == old(self).seed_val(),
            final(self).draw_count() == old(self).draw_count() + 1,
    {
        let m: i64 = fx_neg(x);
        self.offset(m, x, options, roughness_gain)
    }
}

} // verus!
