//! The library's stated laws: determinism of the synthesis, endpoint
//! behavior of the bowed line, its fixed point count, the stroke count
//! of four-cornered outlines, the dotted minimum-dot guarantee, and
//! exact triangulation counts.

use vstd::prelude::*;
use crate::fixed::{
    FX_LIM, sat, fxadd, fxsub, fxneg, fxmul, fxlen, fx_of, fxdivi, fxscale, fxabs,
    lemma_fxmul_unit,
};
use vstd::arithmetic::div_mod::lemma_div_multiples_vanish;
use crate::rough::{Point, pt, RoughOptions, RoughGenerator, rand_fx, offset_opt_m};
use crate::lines::{
    line_m, solid_line_m, dotted_line_m, bezier_seq, bezier_pt, line_gain, clamped_offset,
    in_range_pt, dot_spacing,
};
use crate::shapes::{lemma_edge_lines_len, corners_shape_m};
use crate::mesh::{RgbaColor, solid_mesh_m, lemma_solid_mesh_props, lemma_live_segs_all};

verus! {

/// Determinism: the bowed line depends on the endpoints, the style,
/// the seed and the generator's draw position alone. Two generators
/// with the same seed at the same position yield the same polyline;
/// every synthesizer's contract speaks of such a model, so the whole
/// synthesis is reproducible for a fixed seed and call sequence.
pub proof fn lemma_rough_line_deterministic(
    g1: RoughGenerator,
    g2: RoughGenerator,
    s: Point,
    e: Point,
    o: RoughOptions,
)
    requires
        g1.seed_val() == g2.seed_val(),
        g1.draw_count() == g2.draw_count(),
    ensures
        line_m(s, e, o, g1.seed_val(), g1.draw_count()) == line_m(
            s,
            e,
            o,
            g2.seed_val(),
            g2.draw_count(),
        ),
{
}

/// The last Bezier sample sits exactly on the final control point
/// (saturated), whatever the other control points are.
proof fn lemma_bezier_last(p0: Point, p1: Point, p2: Point, p3: Point, n: int)
    requires
        1 <= n,
    ensures
        bezier_pt(p0, p1, p2, p3, n, n) == pt(sat(p3.x as int), sat(p3.y as int)),
{
    reveal(crate::lines::bezier_pt);
    let k = fx_of(n);
    assert(k >= 65536) by {
        assert(n * 65536 >= 65536) by (nonlinear_arith)
            requires n >= 1,
        {}
    }
    assert(k * 65536 >= 0) by (nonlinear_arith)
        requires k >= 0,
    {}
    lemma_div_multiples_vanish(65536, k);
    assert(k * 65536 == 65536 * k) by (nonlinear_arith) {}
    assert((k * 65536) / k == 65536);
    let t = crate::fixed::fxdiv(k, k);
    assert(t == 65536);
    lemma_fxmul_unit(p3.x as int);
    lemma_fxmul_unit(p3.y as int);
    let u = fxsub(65536, t);
    assert(u == 0);
    let tt = fxmul(t, t);
    assert(tt == 65536);
    let uu = fxmul(u, u);
    assert(uu == 0);
    let uuu = fxmul(uu, u);
    assert(uuu == 0);
    let ttt = fxmul(tt, t);
    assert(ttt == 65536);
    assert(fxscale(uu, 3) == 0);
    assert(fxscale(u, 3) == 0);
    assert(fxmul(fxscale(uu, 3), t) == 0);
    assert(fxmul(fxscale(u, 3), tt) == 0);
    assert(forall|v: int| #[trigger] fxmul(0, v) == 0) by {
        assert(forall|v: int| #[trigger] (0 * v) == 0) by (nonlinear_arith) {}
    }
    assert(fxmul(ttt, p3.x as int) == sat(p3.x as int));
    assert(bezier_pt(p0, p1, p2, p3, n, n).x as int == sat(p3.x as int));
    assert(bezier_pt(p0, p1, p2, p3, n, n).y as int == sat(p3.y as int));
}

/// Endpoint preservation: with `preserve_vertices` the bowed line
/// starts exactly at the first endpoint and ends exactly at the
/// second, with no tolerance, for any in-range endpoints.
pub proof fn lemma_preserved_endpoints(s: Point, e: Point, o: RoughOptions, seed: u64, d0: nat)
    requires
        !o.dotted,
        o.preserve_vertices,
        in_range_pt(s),
        in_range_pt(e),
    ensures
        solid_line_m(s, e, o, seed, d0).len() == 11,
        solid_line_m(s, e, o, seed, d0)[0] == s,
        solid_line_m(s, e, o, seed, d0)[10] == e,
{
    reveal(crate::lines::solid_line_m);
    let m = solid_line_m(s, e, o, seed, d0);
    let len = fxlen(fxsub(e.x as int, s.x as int), fxsub(e.y as int, s.y as int));
    let gain = line_gain(len);
    let off = clamped_offset(o, len);
    let rough = o.roughness as int;
    let diverge = fxadd(13107, fxmul(rand_fx(seed, d0), 13107));
    let bow = fxmul(o.bowing as int, o.max_randomness_offset as int);
    let mdx0 = fxdivi(fxmul(bow, fxsub(e.y as int, s.y as int)), 200);
    let mdy0 = fxdivi(fxmul(bow, fxsub(s.x as int, e.x as int)), 200);
    let mdx = fxadd(mdx0, offset_opt_m(mdx0, rough, gain, seed, d0 + 1));
    let mdy = fxadd(mdy0, offset_opt_m(mdy0, rough, gain, seed, d0 + 2));
    let cp1 = pt(
        fxadd(
            fxadd(fxadd(mdx, s.x as int), fxmul(fxsub(e.x as int, s.x as int), diverge)),
            offset_opt_m(off, rough, gain, seed, d0 + 3),
        ),
        fxadd(
            fxadd(fxadd(mdy, s.y as int), fxmul(fxsub(e.y as int, s.y as int), diverge)),
            offset_opt_m(off, rough, gain, seed, d0 + 4),
        ),
    );
    let cp2 = pt(
        fxadd(
            fxadd(fxadd(mdx, s.x as int), fxmul(fxscale(fxsub(e.x as int, s.x as int), 2), diverge)),
            offset_opt_m(off, rough, gain, seed, d0 + 5),
        ),
        fxadd(
            fxadd(fxadd(mdy, s.y as int), fxmul(fxscale(fxsub(e.y as int, s.y as int), 2), diverge)),
            offset_opt_m(off, rough, gain, seed, d0 + 6),
        ),
    );
    assert(m == seq![s] + bezier_seq(s, cp1, cp2, e, 10));
    assert(m[0] == s);
    assert(m[10] == bezier_pt(s, cp1, cp2, e, 10, 10));
    lemma_bezier_last(s, cp1, cp2, e, 10);
}

/// The uniform fraction always lies inside the unit interval.
proof fn lemma_rand_fx_range(seed: u64, d: nat)
    ensures
        0 <= rand_fx(seed, d) < 65536,
{
    let u = crate::rough::rng_stream(seed, d) as int;
    assert(u / 65536 < 65536) by (nonlinear_arith)
        requires 0 <= u < 0x100000000,
    {}
    assert(u / 65536 >= 0) by (nonlinear_arith)
        requires 0 <= u,
    {}
}

/// Endpoint jitter bound: when the roughness times the gain is at most
/// one, the symmetric jitter never exceeds its amplitude.
pub proof fn lemma_offset_opt_bounded(x: int, rough: int, gain: int, seed: u64, d: nat)
    requires
        0 <= x <= FX_LIM / 2,
        0 <= fxmul(rough, gain) <= 65536,
    ensures
        -x <= offset_opt_m(x, rough, gain, seed, d) <= x,
{
    lemma_rand_fx_range(seed, d);
    let r = rand_fx(seed, d);
    let span = fxsub(x, fxneg(x));
    assert(span == sat(2 * x));
    assert(span == 2 * x);
    let scaled = fxmul(r, span);
    assert(0 <= (r * (2 * x)) / 65536 <= 2 * x) by (nonlinear_arith)
        requires 0 <= r < 65536, 0 <= x,
    {}
    assert(0 <= scaled <= 2 * x);
    let inner = fxadd(scaled, fxneg(x));
    assert(-x <= inner <= x);
    let rg = fxmul(rough, gain);
    if inner >= 0 {
        assert(0 <= (rg * inner) / 65536 <= inner) by (nonlinear_arith)
            requires 0 <= rg <= 65536, 0 <= inner,
        {}
    } else {
        assert(0 <= (rg * (-inner)) / 65536 <= -inner) by (nonlinear_arith)
            requires 0 <= rg <= 65536, 0 < -inner,
        {}
        assert(rg * inner == -(rg * (-inner))) by (nonlinear_arith) {}
    }
}

/// Unpreserved endpoints stay within the clamped jitter amplitude of
/// the true endpoints: the first and last points of the bowed line
/// differ from the true endpoints by at most the clamped offset in
/// each coordinate.
pub proof fn lemma_line_endpoint_jitter(s: Point, e: Point, o: RoughOptions, seed: u64, d0: nat)
    requires
        !o.dotted,
        !o.preserve_vertices,
        in_range_pt(s),
        in_range_pt(e),
        0 <= o.max_randomness_offset <= FX_LIM / 2,
        0 <= fxmul(
            o.roughness as int,
            line_gain(fxlen(fxsub(e.x as int, s.x as int), fxsub(e.y as int, s.y as int))),
        ) <= 65536,
    ensures
        ({
            let m = solid_line_m(s, e, o, seed, d0);
            let len = fxlen(fxsub(e.x as int, s.x as int), fxsub(e.y as int, s.y as int));
            let off = clamped_offset(o, len);
            m[0].x as int - s.x as int <= off && s.x as int - m[0].x as int <= off
                && m[0].y as int - s.y as int <= off && s.y as int - m[0].y as int <= off
                && m[10].x as int - e.x as int <= off && e.x as int - m[10].x as int <= off
                && m[10].y as int - e.y as int <= off && e.y as int - m[10].y as int <= off
        }),
{
    reveal(crate::lines::solid_line_m);
    let len = fxlen(fxsub(e.x as int, s.x as int), fxsub(e.y as int, s.y as int));
    let gain = line_gain(len);
    let off = clamped_offset(o, len);
    let rough = o.roughness as int;
    proof_fxlen_nonneg_helper(s, e);
    assert(len >= 0);
    assert(0 <= off <= FX_LIM / 2) by {
        if fxscale(fxabs(o.max_randomness_offset as int), 10) > len {
            assert(fxdivi(len, 10) <= FX_LIM / 2) by (nonlinear_arith)
                requires 0 <= len <= FX_LIM,
            {}
        }
    }
    lemma_offset_opt_bounded(off, rough, gain, seed, d0 + 3);
    lemma_offset_opt_bounded(off, rough, gain, seed, d0 + 4);
    let jx = offset_opt_m(off, rough, gain, seed, d0 + 3);
    let jy = offset_opt_m(off, rough, gain, seed, d0 + 4);
    let m = solid_line_m(s, e, o, seed, d0);
    assert(m[0] == pt(fxadd(s.x as int, jx), fxadd(s.y as int, jy)));
    lemma_sat_step(s.x as int, jx, off);
    lemma_sat_step(s.y as int, jy, off);
    lemma_offset_opt_bounded(off, rough, gain, seed, d0 + 9);
    lemma_offset_opt_bounded(off, rough, gain, seed, d0 + 10);
    let jex = offset_opt_m(off, rough, gain, seed, d0 + 9);
    let jey = offset_opt_m(off, rough, gain, seed, d0 + 10);
    let p0 = pt(fxadd(s.x as int, jx), fxadd(s.y as int, jy));
    let p3 = pt(fxadd(e.x as int, jex), fxadd(e.y as int, jey));
    let diverge = fxadd(13107, fxmul(rand_fx(seed, d0), 13107));
    let bow = fxmul(o.bowing as int, o.max_randomness_offset as int);
    let mdx0 = fxdivi(fxmul(bow, fxsub(e.y as int, s.y as int)), 200);
    let mdy0 = fxdivi(fxmul(bow, fxsub(s.x as int, e.x as int)), 200);
    let mdx = fxadd(mdx0, offset_opt_m(mdx0, rough, gain, seed, d0 + 1));
    let mdy = fxadd(mdy0, offset_opt_m(mdy0, rough, gain, seed, d0 + 2));
    let cp1 = pt(
        fxadd(
            fxadd(fxadd(mdx, s.x as int), fxmul(fxsub(e.x as int, s.x as int), diverge)),
            offset_opt_m(off, rough, gain, seed, d0 + 5),
        ),
        fxadd(
            fxadd(fxadd(mdy, s.y as int), fxmul(fxsub(e.y as int, s.y as int), diverge)),
            offset_opt_m(off, rough, gain, seed, d0 + 6),
        ),
    );
    let cp2 = pt(
        fxadd(
            fxadd(fxadd(mdx, s.x as int), fxmul(fxscale(fxsub(e.x as int, s.x as int), 2), diverge)),
            offset_opt_m(off, rough, gain, seed, d0 + 7),
        ),
        fxadd(
            fxadd(fxadd(mdy, s.y as int), fxmul(fxscale(fxsub(e.y as int, s.y as int), 2), diverge)),
            offset_opt_m(off, rough, gain, seed, d0 + 8),
        ),
    );
    assert(m == seq![p0] + bezier_seq(p0, cp1, cp2, p3, 10));
    assert(m[10] == bezier_pt(p0, cp1, cp2, p3, 10, 10));
    lemma_bezier_last(p0, cp1, cp2, p3, 10);
    assert(m[10].x as int == sat(p3.x as int));
    assert(p3.x as int == fxadd(e.x as int, jex));
    lemma_sat_step(e.x as int, jex, off);
    lemma_sat_step(e.y as int, jey, off);
}

/// Adding a bounded step to an in-range value moves the saturated sum
/// by no more than the step's bound.
proof fn lemma_sat_step(v: int, j: int, off: int)
    requires
        -FX_LIM <= v <= FX_LIM,
        -off <= j <= off,
        0 <= off,
    ensures
        sat(v + j) - v <= off,
        v - sat(v + j) <= off,
{
}

/// The segment length of a point pair is never negative.
proof fn proof_fxlen_nonneg_helper(s: Point, e: Point)
    ensures
        0 <= fxlen(fxsub(e.x as int, s.x as int), fxsub(e.y as int, s.y as int)) <= FX_LIM,
{
    crate::fixed::lemma_fxlen_nonneg(fxsub(e.x as int, s.x as int), fxsub(e.y as int, s.y as int));
}

/// Point-count scaling: a non-dotted bowed line always has exactly
/// eleven points (the start point and ten Bezier samples), whatever
/// the endpoints and the style.
pub proof fn lemma_line_point_count(s: Point, e: Point, o: RoughOptions, seed: u64, d0: nat)
    requires
        !o.dotted,
    ensures
        line_m(s, e, o, seed, d0).len() == 11,
{
    reveal(crate::lines::solid_line_m);
}

/// Multi-stroke doubling: a non-dotted four-cornered outline has
/// exactly four polylines with multi-stroke disabled and exactly
/// eight with it enabled; the rectangle and the diamond both walk
/// four corners.
pub proof fn lemma_corner_stroke_count(corners: Seq<Point>, o: RoughOptions, seed: u64, d0: nat)
    requires
        !o.dotted,
    ensures
        corners_shape_m(corners, o, seed, d0).len() == (if o.disable_multi_stroke {
            4int
        } else {
            8int
        }),
{
    lemma_edge_lines_len(corners, o, seed, d0, 0);
}

/// Dotted minimum-dot guarantee: a dotted segment longer than five
/// units always yields at least one dot center, even when the
/// spacing-based count rounds down to zero.
pub proof fn lemma_dotted_min_dot(s: Point, e: Point, o: RoughOptions, seed: u64, d0: nat)
    requires
        fxlen(fxsub(e.x as int, s.x as int), fxsub(e.y as int, s.y as int)) > 327680,
    ensures
        dotted_line_m(s, e, o, seed, d0).len() >= 1,
{
    reveal(crate::lines::dotted_line_m);
    let len = fxlen(fxsub(e.x as int, s.x as int), fxsub(e.y as int, s.y as int));
    let spacing = dot_spacing(o);
    assert(spacing >= 524288);
    assert(len / spacing >= 0) by (nonlinear_arith)
        requires len > 0, spacing > 0,
    {}
}

/// Triangulation index validity in its exact form: a polyline of at
/// least two points with no repeated consecutive point yields four
/// vertices and six indices per segment, and every index lies below
/// the vertex count of the same call.
pub proof fn lemma_triangulation_counts(points: Seq<Point>, c: RgbaColor, w: int)
    requires
        2 <= points.len() <= 16384,
        forall|k: int|
            0 <= k < points.len() - 1 ==> fxlen(
                fxsub(points[k + 1].x as int, #[trigger] points[k].x as int),
                fxsub(points[k + 1].y as int, points[k].y as int),
            ) > 0,
    ensures
        solid_mesh_m(points, c, w, 0, 0).0.len() == 4 * (points.len() - 1),
        solid_mesh_m(points, c, w, 0, 0).1.len() == 6 * (points.len() - 1),
        forall|k: int|
            0 <= k < solid_mesh_m(points, c, w, 0, 0).1.len() ==> (
            #[trigger] solid_mesh_m(points, c, w, 0, 0).1[k] as int) < 4 * (points.len() - 1),
{
    lemma_live_segs_all(points, 0);
    lemma_solid_mesh_props(points, c, w, 0, 0);
}

} // verus!
