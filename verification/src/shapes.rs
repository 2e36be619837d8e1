//! Shape synthesizers: rectangle, diamond, ellipse, and the
//! curve-through-points smoothing.
//!
//! A shape decomposes into edges or arcs and drives the bowed-line
//! synthesizer (or the ellipse point walk) once per edge, twice under
//! multi-stroke; a dotted style re-segments the collected polylines
//! afterwards. As with the lines, every method's result equals a
//! spec-level model of the whole composition.

use vstd::prelude::*;
use crate::fixed::{
    Fx, FX_LIM, fxadd, fxsub, fxneg, fxmul, fxscale, fxdivi, fxdiv, fxmax, fxmin, fx_of,
    fx_add, fx_sub, fx_neg, fx_mul, fx_scale, fx_divi, fx_div, fx_max, fx_min, fx_from,
};
use crate::rough::{Point, pt, RoughOptions, RoughGenerator, rand_fx, offset_m, offset_opt_m};
use crate::lines::{
    line_m, line_m_draws, bezier_seq, views, dotted_lines_m, dotted_lines_draws,
};
use crate::trig::{sinq, cosq, sin_fx, cos_fx};

verus! {

/// The four corners of an axis-aligned rectangle, in edge order.
pub open spec fn rect_corners(position: Point, size: Point) -> Seq<Point> {
    seq![
        position,
        pt(fxadd(position.x as int, size.x as int), position.y as int),
        pt(fxadd(position.x as int, size.x as int), fxadd(position.y as int, size.y as int)),
        pt(position.x as int, fxadd(position.y as int, size.y as int)),
    ]
}

/// The four corners of a diamond: the rectangle's edge midpoints.
pub open spec fn diamond_corners(position: Point, size: Point) -> Seq<Point> {
    let cx = fxadd(position.x as int, fxdivi(size.x as int, 2));
    let cy = fxadd(position.y as int, fxdivi(size.y as int, 2));
    seq![
        pt(cx, position.y as int),
        pt(fxadd(position.x as int, size.x as int), cy),
        pt(cx, fxadd(position.y as int, size.y as int)),
        pt(position.x as int, cy),
    ]
}

/// Walk four corners, one bowed line per edge (two under
/// multi-stroke), from edge `i` on.
pub open spec fn edge_lines_m(corners: Seq<Point>, o: RoughOptions, seed: u64, d0: nat, i: int) -> Seq<
    Seq<Point>,
>
    decreases 4 - i,
{
    if i < 0 || i >= 4 {
        Seq::empty()
    } else {
        let s = corners[i];
        let e = corners[(i + 1) % 4];
        let l1 = line_m(s, e, o, seed, d0);
        let d1 = d0 + line_m_draws(s, e, o);
        if o.disable_multi_stroke {
            seq![l1] + edge_lines_m(corners, o, seed, d1, i + 1)
        } else {
            let l2 = line_m(s, e, o, seed, d1);
            let d2 = d1 + line_m_draws(s, e, o);
            seq![l1, l2] + edge_lines_m(corners, o, seed, d2, i + 1)
        }
    }
}

/// Draws consumed by the edge walk from edge `i` on.
pub open spec fn edge_lines_draws(corners: Seq<Point>, o: RoughOptions, i: int) -> nat
    decreases 4 - i,
{
    if i < 0 || i >= 4 {
        0nat
    } else {
        let s = corners[i];
        let e = corners[(i + 1) % 4];
        let per = if o.disable_multi_stroke {
            line_m_draws(s, e, o)
        } else {
            line_m_draws(s, e, o) + line_m_draws(s, e, o)
        };
        per + edge_lines_draws(corners, o, i + 1)
    }
}

/// The edge walk yields one polyline per edge, or two under
/// multi-stroke.
pub proof fn lemma_edge_lines_len(corners: Seq<Point>, o: RoughOptions, seed: u64, d0: nat, i: int)
    requires
        0 <= i <= 4,
    ensures
        edge_lines_m(corners, o, seed, d0, i).len() == (4 - i) * (
        if o.disable_multi_stroke { 1int } else { 2int }),
    decreases 4 - i,
{
    if i < 4 {
        let s = corners[i];
        let e = corners[(i + 1) % 4];
        let d1 = d0 + line_m_draws(s, e, o);
        if o.disable_multi_stroke {
            lemma_edge_lines_len(corners, o, seed, d1, i + 1);
        } else {
            let d2 = d1 + line_m_draws(s, e, o);
            lemma_edge_lines_len(corners, o, seed, d2, i + 1);
        }
    }
}

/// A four-cornered outline: the edge walk, re-dotted when the style
/// is dotted.
pub open spec fn corners_shape_m(corners: Seq<Point>, o: RoughOptions, seed: u64, d0: nat) -> Seq<
    Seq<Point>,
> {
    let lines = edge_lines_m(corners, o, seed, d0, 0);
    dotted_lines_m(lines, o, seed, d0 + edge_lines_draws(corners, o, 0))
}

/// Draws consumed by a four-cornered outline.
pub open spec fn corners_shape_draws(corners: Seq<Point>, o: RoughOptions, seed: u64, d0: nat) -> nat {
    let lines = edge_lines_m(corners, o, seed, d0, 0);
    edge_lines_draws(corners, o, 0) + dotted_lines_draws(lines, o)
}

/// Clamp a subdivision count into the ellipse's working range.
pub open spec fn step_clamp(x: int) -> int {
    let a = if x < 16 { 16int } else { x };
    if a > 48 { 48int } else { a }
}

/// The clean ellipse walk for zero roughness: increment-spaced points
/// with a tiny radius variation, one angle step at a time (at least
/// one fixed-point unit, so the walk always ends). Yields the points
/// and the number of draws consumed.
pub open spec fn ellipse_clean_m(
    angle: int,
    rx: int,
    ry: int,
    center: Point,
    rough: int,
    increment: int,
    seed: u64,
    d: nat,
) -> (Seq<Point>, nat)
    decreases (if angle <= 411775 { 411776 - angle } else { 0int }),
{
    if angle > 411775 {
        (Seq::empty(), 0nat)
    } else {
        let rvx = fxadd(rx, offset_opt_m(13107, rough, 3277, seed, d));
        let rvy = fxadd(ry, offset_opt_m(13107, rough, 3277, seed, d + 1));
        let p = pt(
            fxadd(center.x as int, fxmul(rvx, cosq(angle))),
            fxadd(center.y as int, fxmul(rvy, sinq(angle))),
        );
        let rest = ellipse_clean_m(
            fxadd(angle, fxmax(increment, 1)),
            rx,
            ry,
            center,
            rough,
            increment,
            seed,
            d + 2,
        );
        (seq![p] + rest.0, (2 + rest.1) as nat)
    }
}

/// One point of the varied ellipse walk: the radius is modulated by
/// two slow waves and jitter, clamped, and the point jittered around
/// the center.
#[verifier::opaque]
pub open spec fn walk_pt(
    step_count: int,
    seg_idx: int,
    rx: int,
    ry: int,
    off: int,
    center: Point,
    rough: int,
    angle: int,
    seed: u64,
    d: nat,
) -> Point {
    let progress = fxdiv(fx_of(seg_idx), fx_of(step_count));
    let w1 = fxmul(sinq(fxscale(fxmul(progress, 205887), 3)), 655);
    let w2 = fxmul(cosq(fxscale(fxmul(progress, 205887), 5)), 328);
    let rm0 = fxadd(fxadd(fxadd(65536, w1), w2), offset_opt_m(1311, rough, 65536, seed, d));
    let rm = fxmin(fxmax(rm0, 62259), 68813);
    let prx0 = fxadd(fxmul(rx, rm), offset_opt_m(fxmul(rx, 655), rough, 65536, seed, d + 1));
    let pry0 = fxadd(fxmul(ry, rm), offset_opt_m(fxmul(ry, 655), rough, 65536, seed, d + 2));
    let prx = fxmin(fxmax(prx0, fxmul(rx, 60293)), fxmul(rx, 70779));
    let pry = fxmin(fxmax(pry0, fxmul(ry, 60293)), fxmul(ry, 70779));
    pt(
        fxadd(
            fxadd(offset_opt_m(fxmul(off, 13107), rough, 65536, seed, d + 3), center.x as int),
            fxmul(prx, cosq(angle)),
        ),
        fxadd(
            fxadd(offset_opt_m(fxmul(off, 13107), rough, 65536, seed, d + 4), center.y as int),
            fxmul(pry, sinq(angle)),
        ),
    )
}

/// The randomized angle step of the varied walk, floored at one
/// fixed-point unit so the walk always ends.
pub open spec fn walk_step(increment: int, seed: u64, d: nat) -> int {
    fxmax(fxmul(increment, fxadd(62259, fxmul(rand_fx(seed, d + 5), 6554))), 1)
}

/// The varied ellipse walk: jittered points from `angle` up to
/// `end_angle`, stepping by the randomized increment; yields the
/// points and the number of draws consumed (six per point).
#[verifier::opaque]
pub open spec fn ellipse_walk_m(
    angle: int,
    end_angle: int,
    seg_idx: int,
    step_count: int,
    rx: int,
    ry: int,
    off: int,
    center: Point,
    rough: int,
    increment: int,
    seed: u64,
    d: nat,
) -> (Seq<Point>, nat)
    decreases (if angle < end_angle { end_angle - angle } else { 0int }),
{
    if angle >= end_angle || end_angle > FX_LIM {
        (Seq::empty(), 0nat)
    } else {
        let p = walk_pt(step_count, seg_idx, rx, ry, off, center, rough, angle, seed, d);
        let rest = ellipse_walk_m(
            fxadd(angle, walk_step(increment, seed, d)),
            end_angle,
            seg_idx + 1,
            step_count,
            rx,
            ry,
            off,
            center,
            rough,
            increment,
            seed,
            d + 6,
        );
        (seq![p] + rest.0, (6 + rest.1) as nat)
    }
}

/// One step of the varied walk unfolded: below the end angle, the
/// walk is its first point followed by the walk from the stepped
/// angle, six draws later.
pub proof fn lemma_walk_unfold(
    angle: int,
    end_angle: int,
    seg_idx: int,
    step_count: int,
    rx: int,
    ry: int,
    off: int,
    center: Point,
    rough: int,
    increment: int,
    seed: u64,
    d: nat,
)
    requires
        angle < end_angle,
        end_angle <= FX_LIM,
    ensures
        ({
            let w = ellipse_walk_m(
                angle, end_angle, seg_idx, step_count, rx, ry, off, center, rough, increment,
                seed, d,
            );
            let rest = ellipse_walk_m(
                fxadd(angle, walk_step(increment, seed, d)), end_angle, seg_idx + 1, step_count,
                rx, ry, off, center, rough, increment, seed, d + 6,
            );
            w.0 == seq![walk_pt(step_count, seg_idx, rx, ry, off, center, rough, angle, seed, d)]
                + rest.0 && w.1 == 6 + rest.1
        }),
{
    reveal(crate::shapes::ellipse_walk_m);
}

/// At or past the end angle the walk is empty and draws nothing.
pub proof fn lemma_walk_done(
    angle: int,
    end_angle: int,
    seg_idx: int,
    step_count: int,
    rx: int,
    ry: int,
    off: int,
    center: Point,
    rough: int,
    increment: int,
    seed: u64,
    d: nat,
)
    requires
        angle >= end_angle,
    ensures
        ellipse_walk_m(
            angle, end_angle, seg_idx, step_count, rx, ry, off, center, rough, increment, seed, d,
        ).0 == Seq::<Point>::empty(),
        ellipse_walk_m(
            angle, end_angle, seg_idx, step_count, rx, ry, off, center, rough, increment, seed, d,
        ).1 == 0,
{
    reveal(crate::shapes::ellipse_walk_m);
}

/// One pass of ellipse points: the clean walk at zero roughness;
/// otherwise a jittered start point, the varied walk, an overshooting
/// end point and a closure point. Yields points and draws.
#[verifier::opaque]
pub open spec fn ellipse_points_m(
    increment: int,
    center: Point,
    rx: int,
    ry: int,
    off: int,
    overlap: int,
    o: RoughOptions,
    seed: u64,
    d0: nat,
    step_count: int,
) -> (Seq<Point>, nat) {
    let rough = o.roughness as int;
    if o.roughness == 0 {
        ellipse_clean_m(fxneg(increment), rx, ry, center, rough, increment, seed, d0)
    } else {
        let rad_offset = fxsub(offset_opt_m(6554, rough, 65536, seed, d0), 102944);
        let sv = fxadd(64225, fxmul(rand_fx(seed, d0 + 1), 2621));
        let first = pt(
            fxadd(
                fxadd(offset_opt_m(fxmul(off, 19661), rough, 65536, seed, d0 + 2), center.x as int),
                fxmul(fxmul(sv, rx), cosq(fxsub(rad_offset, increment))),
            ),
            fxadd(
                fxadd(offset_opt_m(fxmul(off, 19661), rough, 65536, seed, d0 + 3), center.y as int),
                fxmul(fxmul(sv, ry), sinq(fxsub(rad_offset, increment))),
            ),
        );
        let end_angle = fxadd(fxadd(411775, rad_offset), overlap);
        let walk = ellipse_walk_m(
            rad_offset,
            end_angle,
            0,
            step_count,
            rx,
            ry,
            off,
            center,
            rough,
            increment,
            seed,
            d0 + 4,
        );
        let dw = d0 + 4 + walk.1;
        let ev = fxadd(62915, fxmul(rand_fx(seed, dw), 5243));
        let end_angle_pt = fxadd(fxadd(rad_offset, 411775), fxmul(overlap, 32768));
        let endp = pt(
            fxadd(
                fxadd(offset_opt_m(fxmul(off, 32768), rough, 65536, seed, dw + 1), center.x as int),
                fxmul(fxmul(ev, rx), cosq(end_angle_pt)),
            ),
            fxadd(
                fxadd(offset_opt_m(fxmul(off, 32768), rough, 65536, seed, dw + 2), center.y as int),
                fxmul(fxmul(ev, ry), sinq(end_angle_pt)),
            ),
        );
        let cv = fxadd(62259, fxmul(rand_fx(seed, dw + 3), 6554));
        let closep = pt(
            fxadd(
                fxadd(offset_opt_m(fxmul(off, 19661), rough, 65536, seed, dw + 4), center.x as int),
                fxmul(fxmul(cv, rx), cosq(fxadd(rad_offset, overlap))),
            ),
            fxadd(
                fxadd(offset_opt_m(fxmul(off, 19661), rough, 65536, seed, dw + 5), center.y as int),
                fxmul(fxmul(cv, ry), sinq(fxadd(rad_offset, overlap))),
            ),
        );
        ((seq![first] + walk.0) + seq![endp, closep], (4 + walk.1 + 6) as nat)
    }
}

/// The second multi-stroke pass runs at four fifths of the roughness.
pub open spec fn stroke2_opts(o: RoughOptions) -> RoughOptions {
    RoughOptions { roughness: fxmul(o.roughness as int, 52429) as i64, ..o }
}

/// The full ellipse: one pass of points (two under multi-stroke, the
/// second with reduced roughness and tighter variation), re-dotted
/// when the style is dotted. Yields the polylines and the draws.
#[verifier::opaque]
pub open spec fn ellipse_m(
    center: Point,
    width: int,
    height: int,
    o: RoughOptions,
    seed: u64,
    d0: nat,
) -> (Seq<Seq<Point>>, nat) {
    let rough = o.roughness as int;
    let rx = fxdivi(width, 2);
    let ry = fxdivi(height, 2);
    let sv = fxdivi(fxmul(rand_fx(seed, d0), 262144), 65536);
    let sc = step_clamp(o.curve_step_count as int + sv);
    let increment = fxdivi(411775, sc);
    let rx_off = fxadd(rx, offset_opt_m(fxmul(rx, 1311), rough, 65536, seed, d0 + 1));
    let ry_off = fxadd(ry, offset_opt_m(fxmul(ry, 1311), rough, 65536, seed, d0 + 2));
    let overlap = fxmul(increment, offset_m(3277, 6554, rough, 65536, seed, d0 + 3));
    let pass1 = ellipse_points_m(increment, center, rx_off, ry_off, 65536, overlap, o, seed, d0 + 4, sc);
    let d1 = d0 + 4 + pass1.1;
    if o.disable_multi_stroke {
        let lines = seq![pass1.0];
        (dotted_lines_m(lines, o, seed, d1), (4 + pass1.1 + dotted_lines_draws(lines, o)) as nat)
    } else {
        let o2 = stroke2_opts(o);
        let rough2 = o2.roughness as int;
        let rx2 = fxadd(rx, offset_opt_m(fxmul(rx, 655), rough2, 65536, seed, d1));
        let ry2 = fxadd(ry, offset_opt_m(fxmul(ry, 655), rough2, 65536, seed, d1 + 1));
        let overlap2 = fxmul(increment, offset_m(1311, 3277, rough2, 65536, seed, d1 + 2));
        let pass2 = ellipse_points_m(
            increment,
            center,
            rx2,
            ry2,
            32768,
            overlap2,
            o2,
            seed,
            d1 + 3,
            sc,
        );
        let d2 = d1 + 3 + pass2.1;
        let lines = seq![pass1.0, pass2.0];
        (
            dotted_lines_m(lines, o, seed, d2),
            (4 + pass1.1 + 3 + pass2.1 + dotted_lines_draws(lines, o)) as nat,
        )
    }
}

/// The extended control sequence for curve smoothing: the first point
/// doubled in front, the last point appended once more.
pub open spec fn ext_pts(points: Seq<Point>) -> Seq<Point> {
    seq![points[0], points[0]] + points + seq![points[points.len() - 1]]
}

/// Catmull-Rom-style smoothing segments: for each interior window of
/// four control points, eight Bezier samples between the middle two,
/// with handles scaled by the tightness complement `s`.
pub open spec fn curve_segs_m(ext: Seq<Point>, s: int, i: int) -> Seq<Point>
    decreases ext.len() - i,
{
    if i < 1 || i >= ext.len() - 2 {
        Seq::empty()
    } else {
        let p0 = ext[i - 1];
        let p1 = ext[i];
        let p2 = ext[i + 1];
        let p3 = ext[i + 2];
        let cp1 = pt(
            fxadd(p1.x as int, fxdivi(fxsub(fxmul(s, p2.x as int), fxmul(s, p0.x as int)), 6)),
            fxadd(p1.y as int, fxdivi(fxsub(fxmul(s, p2.y as int), fxmul(s, p0.y as int)), 6)),
        );
        let cp2 = pt(
            fxadd(p2.x as int, fxdivi(fxsub(fxmul(s, p1.x as int), fxmul(s, p3.x as int)), 6)),
            fxadd(p2.y as int, fxdivi(fxsub(fxmul(s, p1.y as int), fxmul(s, p3.y as int)), 6)),
        );
        bezier_seq(p1, cp1, cp2, p2, 8) + curve_segs_m(ext, s, i + 1)
    }
}

/// The smoothed curve through the points: unchanged below two points,
/// otherwise the first point followed by all smoothing segments, and
/// once more the first point when closing a ring of at least three.
pub open spec fn curve_through_m(points: Seq<Point>, close: bool, o: RoughOptions) -> Seq<Point> {
    if points.len() < 2 {
        points
    } else {
        let ext = ext_pts(points);
        if ext.len() > 3 {
            let s = fxsub(65536, o.curve_tightness as int);
            let base = seq![ext[1]] + curve_segs_m(ext, s, 1);
            if close && points.len() > 2 {
                base + seq![ext[1]]
            } else {
                base
            }
        } else {
            points
        }
    }
}

impl RoughGenerator {
    /// Smooth a polyline into a curve through its points; consumes no
    /// randomness, so the generator is left exactly as it was.
    pub fn curve_through_points(&mut self, points: Vec<Point>, close: bool, options: &RoughOptions)
        -> (r: Vec<Point>)
        ensures
            r@ == curve_through_m(points@, close, *options),
            final(self).seed_val() == old(self).seed_val(),
            final(self).draw_count() == old(self).draw_count(),
    {
        if points.len() < 2 {
            return points;
        }
        let mut extended_points: Vec<Point> = Vec::new();
        extended_points.push(points[0]);
        extended_points.push(points[0]);
        let mut q: usize = 0;
        while q < points.len()
            invariant
                q <= points@.len(),
                2 <= points@.len(),
                extended_points@ == seq![points@[0], points@[0]] + points@.subrange(0, q as int),
            decreases points@.len() - q,
        {
            extended_points.push(points[q]);
            proof {
                assert(extended_points@ =~= seq![points@[0], points@[0]] + points@.subrange(
                    0,
                    q as int + 1,
                ));
            }
            q = q + 1;
        }
        extended_points.push(points[points.len() - 1]);
        let ghost ext = ext_pts(points@);
        proof {
            assert(points@.subrange(0, points@.len() as int) =~= points@);
            assert(extended_points@ =~= ext);
        }

        let s_val: i64 = fx_sub(65536, options.curve_tightness);
        let mut curve_points: Vec<Point> = Vec::new();
        curve_points.push(extended_points[1]);
        let ghost target = seq![ext[1]] + curve_segs_m(ext, s_val as int, 1);
        proof {
            assert(curve_points@ + curve_segs_m(ext, s_val as int, 1) =~= target);
        }
        let mut i: usize = 1;
        while i < extended_points.len() - 2
            invariant
                1 <= i,
                5 <= extended_points@.len(),
                i + 2 <= extended_points@.len(),
                extended_points@ == ext,
                ext.len() == points@.len() + 3,
                2 <= points@.len(),
                curve_points@ + curve_segs_m(ext, s_val as int, i as int) == target,
            decreases extended_points@.len() - i,
        {
            let p0: Point = extended_points[i - 1];
            let p1: Point = extended_points[i];
            let p2: Point = extended_points[i + 1];
            let p3: Point = extended_points[i + 2];
            let cp1 = Point {
                x: fx_add(p1.x, fx_divi(fx_sub(fx_mul(s_val, p2.x), fx_mul(s_val, p0.x)), 6)),
                y: fx_add(p1.y, fx_divi(fx_sub(fx_mul(s_val, p2.y), fx_mul(s_val, p0.y)), 6)),
            };
            let cp2 = Point {
                x: fx_add(p2.x, fx_divi(fx_sub(fx_mul(s_val, p1.x), fx_mul(s_val, p3.x)), 6)),
                y: fx_add(p2.y, fx_divi(fx_sub(fx_mul(s_val, p1.y), fx_mul(s_val, p3.y)), 6)),
            };
            let mut bez: Vec<Point> = self.bezier_curve(p1, cp1, cp2, p2, 8);
            let ghost bezv = bez@;
            let ghost cpold = curve_points@;
            curve_points.append(&mut bez);
            proof {
                let rest = curve_segs_m(ext, s_val as int, i as int + 1);
                assert(curve_segs_m(ext, s_val as int, i as int) == bezv + rest);
                assert((cpold + bezv) + rest =~= cpold + (bezv + rest));
            }
            i = i + 1;
        }
        proof {
            assert(curve_segs_m(ext, s_val as int, i as int) =~= Seq::<Point>::empty());
            assert(curve_points@ + Seq::<Point>::empty() =~= curve_points@);
        }
        if close && points.len() > 2 {
            let anchor: Point = extended_points[1];
            curve_points.push(anchor);
        }
        proof {
            assert(curve_points@ =~= curve_through_m(points@, close, *options));
        }
        curve_points
    }

    /// Walk the four corners and synthesize one (or two) bowed lines
    /// per edge, in edge order.
    fn corner_lines(&mut self, corners: &Vec<Point>, options: &RoughOptions) -> (r: Vec<Vec<Point>>)
        requires
            corners@.len() == 4,
        ensures
            views(r@) == edge_lines_m(
                corners@,
                *options,
                old(self).seed_val(),
                old(self).draw_count(),
                0,
            ),
            final(self).seed_val() == old(self).seed_val(),
            final(self).draw_count() == old(self).draw_count() + edge_lines_draws(
                corners@,
                *options,
                0,
            ),
    {
        let ghost seed = self.seed_val();
        let ghost d0 = self.draw_count();
        let ghost cs = corners@;
        let ghost target = edge_lines_m(cs, *options, seed, d0, 0);
        let mut lines: Vec<Vec<Point>> = Vec::new();
        proof {
            assert(views(lines@) + edge_lines_m(cs, *options, seed, d0, 0) =~= target);
        }
        let mut i: usize = 0;
        while i < 4
            invariant
                i <= 4,
                cs == corners@,
                cs.len() == 4,
                self.seed_val() == seed,
                views(lines@) + edge_lines_m(cs, *options, seed, self.draw_count(), i as int)
                    == target,
                self.draw_count() + edge_lines_draws(cs, *options, i as int) == d0
                    + edge_lines_draws(cs, *options, 0),
            decreases 4 - i,
        {
            let s: Point = corners[i];
            let e: Point = corners[(i + 1) % 4];
            let ghost dc = self.draw_count();
            let line: Vec<Point> = self.rough_line(s, e, options);
            let ghost l1 = line@;
            let ghost dvold = lines@;
            lines.push(line);
            proof {
                crate::lines::lemma_views_push(dvold, line);
            }
            if !options.disable_multi_stroke {
                let line2: Vec<Point> = self.rough_line(s, e, options);
                let ghost l2 = line2@;
                let ghost dvold2 = lines@;
                lines.push(line2);
                proof {
                    crate::lines::lemma_views_push(dvold2, line2);
                    let rest = edge_lines_m(cs, *options, seed, self.draw_count(), i as int + 1);
                    assert(edge_lines_m(cs, *options, seed, dc, i as int) == seq![l1, l2] + rest);
                    assert(((views(dvold) + seq![l1]) + seq![l2]) + rest =~= views(dvold) + (
                    seq![l1, l2] + rest));
                }
            } else {
                proof {
                    let rest = edge_lines_m(cs, *options, seed, self.draw_count(), i as int + 1);
                    assert(edge_lines_m(cs, *options, seed, dc, i as int) == seq![l1] + rest);
                    assert((views(dvold) + seq![l1]) + rest =~= views(dvold) + (seq![l1] + rest));
                }
            }
            i = i + 1;
        }
        proof {
            assert(edge_lines_m(cs, *options, seed, self.draw_count(), 4)
                =~= Seq::<Seq<Point>>::empty());
            assert(views(lines@) + Seq::<Seq<Point>>::empty() =~= views(lines@));
        }
        lines
    }

    /// One jittered point of the varied ellipse walk.
    #[verifier::rlimit(60)]
    fn ellipse_walk_point(
        &mut self,
        step_count: i64,
        seg_idx: i64,
        rx: Fx,
        ry: Fx,
        offs: Fx,
        center: Point,
        angle: Fx,
        options: &RoughOptions,
    ) -> (p: Point)
        ensures
            p == walk_pt(
                step_count as int,
                seg_idx as int,
                rx as int,
                ry as int,
                offs as int,
                center,
                options.roughness as int,
                angle as int,
                old(self).seed_val(),
                old(self).draw_count(),
            ),
            final(self).seed_val() == old(self).seed_val(),
            final(self).draw_count() == old(self).draw_count() + 5,
    {
        let ghost seed = self.seed_val();
        let ghost dc = self.draw_count();
        let progress: i64 = fx_div(fx_from(seg_idx), fx_from(step_count));
        let w1: i64 = fx_mul(sin_fx(fx_scale(fx_mul(progress, 205887), 3)), 655);
        let w2: i64 = fx_mul(cos_fx(fx_scale(fx_mul(progress, 205887), 5)), 328);
        let jm: i64 = self.offset_opt(1311, options, 65536);
        let rm0: i64 = fx_add(fx_add(fx_add(65536, w1), w2), jm);
        let rm: i64 = fx_min(fx_max(rm0, 62259), 68813);
        let jrx: i64 = self.offset_opt(fx_mul(rx, 655), options, 65536);
        let prx0: i64 = fx_add(fx_mul(rx, rm), jrx);
        let jry: i64 = self.offset_opt(fx_mul(ry, 655), options, 65536);
        let pry0: i64 = fx_add(fx_mul(ry, rm), jry);
        let prx: i64 = fx_min(fx_max(prx0, fx_mul(rx, 60293)), fx_mul(rx, 70779));
        let pry: i64 = fx_min(fx_max(pry0, fx_mul(ry, 60293)), fx_mul(ry, 70779));
        let jpx: i64 = self.offset_opt(fx_mul(offs, 13107), options, 65536);
        let px: i64 = fx_add(fx_add(jpx, center.x), fx_mul(prx, cos_fx(angle)));
        let jpy: i64 = self.offset_opt(fx_mul(offs, 13107), options, 65536);
        let py: i64 = fx_add(fx_add(jpy, center.y), fx_mul(pry, sin_fx(angle)));
        proof {
            reveal(crate::shapes::walk_pt);
        }
        Point { x: px, y: py }
    }

    /// One pass of ellipse points: the clean walk at zero roughness,
    /// otherwise the jittered start point, the varied angle walk, the
    /// overshooting end point and the closure point.
    #[verifier::rlimit(100)]
    #[verifier::spinoff_prover]
    fn compute_ellipse_points_varied(
        &mut self,
        increment: Fx,
        center: Point,
        rx: Fx,
        ry: Fx,
        offs: Fx,
        overlap: Fx,
        options: &RoughOptions,
        step_count: i64,
    ) -> (r: Vec<Point>)
        ensures
            r@ == ellipse_points_m(
                increment as int,
                center,
                rx as int,
                ry as int,
                offs as int,
                overlap as int,
                *options,
                old(self).seed_val(),
                old(self).draw_count(),
                step_count as int,
            ).0,
            final(self).seed_val() == old(self).seed_val(),
            final(self).draw_count() == old(self).draw_count() + ellipse_points_m(
                increment as int,
                center,
                rx as int,
                ry as int,
                offs as int,
                overlap as int,
                *options,
                old(self).seed_val(),
                old(self).draw_count(),
                step_count as int,
            ).1,
    {
        let ghost seed = self.seed_val();
        let ghost d0 = self.draw_count();
        let mut points: Vec<Point> = Vec::new();

        if options.roughness == 0 {
            let step: i64 = fx_max(increment, 1);
            let mut angle: i64 = fx_neg(increment);
            let ghost full = ellipse_clean_m(
                fxneg(increment as int),
                rx as int,
                ry as int,
                center,
                options.roughness as int,
                increment as int,
                seed,
                d0,
            );
            proof {
                assert(points@ + full.0 =~= full.0);
            }
            while angle <= 411775
                invariant
                    -FX_LIM <= angle <= FX_LIM,
                    step as int == fxmax(increment as int, 1),
                    1 <= step,
                    options.roughness == 0,
                    self.seed_val() == seed,
                    points@ + ellipse_clean_m(
                        angle as int,
                        rx as int,
                        ry as int,
                        center,
                        options.roughness as int,
                        increment as int,
                        seed,
                        self.draw_count(),
                    ).0 == full.0,
                    self.draw_count() + ellipse_clean_m(
                        angle as int,
                        rx as int,
                        ry as int,
                        center,
                        options.roughness as int,
                        increment as int,
                        seed,
                        self.draw_count(),
                    ).1 == d0 + full.1,
                decreases (if angle <= 411775 { 411776 - angle } else { 0int }),
            {
                let ghost dc = self.draw_count();
                let jx: i64 = self.offset_opt(13107, options, 3277);
                let radius_var_x: i64 = fx_add(rx, jx);
                let jy: i64 = self.offset_opt(13107, options, 3277);
                let radius_var_y: i64 = fx_add(ry, jy);
                let ca: i64 = cos_fx(angle);
                let sa: i64 = sin_fx(angle);
                let px: i64 = fx_add(center.x, fx_mul(radius_var_x, ca));
                let py: i64 = fx_add(center.y, fx_mul(radius_var_y, sa));
                let ghost pvold = points@;
                points.push(Point { x: px, y: py });
                proof {
                    let rest = ellipse_clean_m(
                        fxadd(angle as int, step as int),
                        rx as int,
                        ry as int,
                        center,
                        options.roughness as int,
                        increment as int,
                        seed,
                        self.draw_count(),
                    );
                    assert((pvold + seq![points@[pvold.len() as int]]) + rest.0 =~= pvold + (
                    seq![points@[pvold.len() as int]] + rest.0));
                }
                angle = fx_add(angle, step);
            }
            proof {
                assert(ellipse_clean_m(
                    angle as int,
                    rx as int,
                    ry as int,
                    center,
                    options.roughness as int,
                    increment as int,
                    seed,
                    self.draw_count(),
                ).0 =~= Seq::<Point>::empty());
                assert(points@ + Seq::<Point>::empty() =~= points@);
                reveal(crate::shapes::ellipse_points_m);
            }
            return points;
        }

        let rj: i64 = self.offset_opt(6554, options, 65536);
        let rad_offset: i64 = fx_sub(rj, 102944);
        let rv1: i64 = self.random();
        let start_radius_variation: i64 = fx_add(64225, fx_mul(rv1, 2621));
        let jx1: i64 = self.offset_opt(fx_mul(offs, 19661), options, 65536);
        let ca1: i64 = cos_fx(fx_sub(rad_offset, increment));
        let x1: i64 = fx_add(fx_add(jx1, center.x), fx_mul(fx_mul(start_radius_variation, rx), ca1));
        let jy1: i64 = self.offset_opt(fx_mul(offs, 19661), options, 65536);
        let sa1: i64 = sin_fx(fx_sub(rad_offset, increment));
        let y1: i64 = fx_add(fx_add(jy1, center.y), fx_mul(fx_mul(start_radius_variation, ry), sa1));
        points.push(Point { x: x1, y: y1 });

        let end_angle: i64 = fx_add(fx_add(411775, rad_offset), overlap);
        let mut angle: i64 = rad_offset;
        let mut seg_idx: i64 = 0;
        let ghost dwalk = self.draw_count();
        let ghost walk_full = ellipse_walk_m(
            rad_offset as int,
            end_angle as int,
            0,
            step_count as int,
            rx as int,
            ry as int,
            offs as int,
            center,
            options.roughness as int,
            increment as int,
            seed,
            dwalk,
        );
        let ghost first = points@[0];
        proof {
            assert(points@ + walk_full.0 =~= seq![first] + walk_full.0);
        }
        while angle < end_angle
            invariant
                -FX_LIM <= angle <= FX_LIM,
                -FX_LIM <= end_angle <= FX_LIM,
                -FX_LIM <= rad_offset <= FX_LIM,
                0 <= seg_idx,
                rad_offset as int + seg_idx as int <= angle as int,
                options.roughness != 0,
                self.seed_val() == seed,
                points@ + ellipse_walk_m(
                    angle as int,
                    end_angle as int,
                    seg_idx as int,
                    step_count as int,
                    rx as int,
                    ry as int,
                    offs as int,
                    center,
                    options.roughness as int,
                    increment as int,
                    seed,
                    self.draw_count(),
                ).0 == seq![first] + walk_full.0,
                self.draw_count() + ellipse_walk_m(
                    angle as int,
                    end_angle as int,
                    seg_idx as int,
                    step_count as int,
                    rx as int,
                    ry as int,
                    offs as int,
                    center,
                    options.roughness as int,
                    increment as int,
                    seed,
                    self.draw_count(),
                ).1 == dwalk + walk_full.1,
            decreases (if angle < end_angle { end_angle - angle } else { 0int }),
        {
            let ghost dc = self.draw_count();
            let p: Point = self.ellipse_walk_point(
                step_count,
                seg_idx,
                rx,
                ry,
                offs,
                center,
                angle,
                options,
            );
            let ghost pvold = points@;
            points.push(p);
            let rv2: i64 = self.random();
            let iv: i64 = fx_mul(increment, fx_add(62259, fx_mul(rv2, 6554)));
            let stepv: i64 = fx_max(iv, 1);
            proof {
                assert(stepv as int == walk_step(increment as int, seed, dc));
                lemma_walk_unfold(
                    angle as int,
                    end_angle as int,
                    seg_idx as int,
                    step_count as int,
                    rx as int,
                    ry as int,
                    offs as int,
                    center,
                    options.roughness as int,
                    increment as int,
                    seed,
                    dc,
                );
                let rest = ellipse_walk_m(
                    fxadd(angle as int, stepv as int),
                    end_angle as int,
                    seg_idx as int + 1,
                    step_count as int,
                    rx as int,
                    ry as int,
                    offs as int,
                    center,
                    options.roughness as int,
                    increment as int,
                    seed,
                    self.draw_count(),
                );
                assert((pvold + seq![points@[pvold.len() as int]]) + rest.0 =~= pvold + (
                seq![points@[pvold.len() as int]] + rest.0));
            }
            angle = fx_add(angle, stepv);
            seg_idx = seg_idx + 1;
        }
        proof {
            lemma_walk_done(
                angle as int,
                end_angle as int,
                seg_idx as int,
                step_count as int,
                rx as int,
                ry as int,
                offs as int,
                center,
                options.roughness as int,
                increment as int,
                seed,
                self.draw_count(),
            );
            assert(points@ + Seq::<Point>::empty() =~= points@);
        }

        let rve: i64 = self.random();
        let end_radius_variation: i64 = fx_add(62915, fx_mul(rve, 5243));
        let jex: i64 = self.offset_opt(fx_mul(offs, 32768), options, 65536);
        let eca: i64 = cos_fx(fx_add(fx_add(rad_offset, 411775), fx_mul(overlap, 32768)));
        let ex: i64 = fx_add(fx_add(jex, center.x), fx_mul(fx_mul(end_radius_variation, rx), eca));
        let jey: i64 = self.offset_opt(fx_mul(offs, 32768), options, 65536);
        let esa: i64 = sin_fx(fx_add(fx_add(rad_offset, 411775), fx_mul(overlap, 32768)));
        let ey: i64 = fx_add(fx_add(jey, center.y), fx_mul(fx_mul(end_radius_variation, ry), esa));
        points.push(Point { x: ex, y: ey });

        let rvc: i64 = self.random();
        let closure_variation: i64 = fx_add(62259, fx_mul(rvc, 6554));
        let jcx: i64 = self.offset_opt(fx_mul(offs, 19661), options, 65536);
        let cca: i64 = cos_fx(fx_add(rad_offset, overlap));
        let cx: i64 = fx_add(fx_add(jcx, center.x), fx_mul(fx_mul(closure_variation, rx), cca));
        let jcy: i64 = self.offset_opt(fx_mul(offs, 19661), options, 65536);
        let csa: i64 = sin_fx(fx_add(rad_offset, overlap));
        let cy: i64 = fx_add(fx_add(jcy, center.y), fx_mul(fx_mul(closure_variation, ry), csa));
        points.push(Point { x: cx, y: cy });

        proof {
            reveal(crate::shapes::ellipse_points_m);
            assert(points@ =~= ellipse_points_m(
                increment as int,
                center,
                rx as int,
                ry as int,
                offs as int,
                overlap as int,
                *options,
                seed,
                d0,
                step_count as int,
            ).0);
        }
        points
    }

    /// A hand-drawn ellipse inside the box of the given width and
    /// height around the center: one organic pass around the circle,
    /// a second softer pass unless multi-stroke is disabled, re-dotted
    /// when the style is dotted.
    pub fn rough_ellipse(&mut self, center: Point, width: Fx, height: Fx, options: &RoughOptions)
        -> (r: Vec<Vec<Point>>)
        ensures
            views(r@) == ellipse_m(
                center,
                width as int,
                height as int,
                *options,
                old(self).seed_val(),
                old(self).draw_count(),
            ).0,
            final(self).seed_val() == old(self).seed_val(),
            final(self).draw_count() == old(self).draw_count() + ellipse_m(
                center,
                width as int,
                height as int,
                *options,
                old(self).seed_val(),
                old(self).draw_count(),
            ).1,
    {
        let ghost seed = self.seed_val();
        let ghost d0 = self.draw_count();
        let rx: i64 = fx_divi(width, 2);
        let ry: i64 = fx_divi(height, 2);

        let rv: i64 = self.random();
        let step_variation: i64 = fx_divi(fx_mul(rv, 262144), 65536);
        let mut step_count: i64 = options.curve_step_count as i64 + step_variation;
        if step_count < 16 {
            step_count = 16;
        }
        if step_count > 48 {
            step_count = 48;
        }
        let increment: i64 = fx_divi(411775, step_count);

        let jrx: i64 = self.offset_opt(fx_mul(rx, 1311), options, 65536);
        let rx_offset: i64 = fx_add(rx, jrx);
        let jry: i64 = self.offset_opt(fx_mul(ry, 1311), options, 65536);
        let ry_offset: i64 = fx_add(ry, jry);
        let ov: i64 = self.offset(3277, 6554, options, 65536);
        let overlap: i64 = fx_mul(increment, ov);

        let pts1: Vec<Point> = self.compute_ellipse_points_varied(
            increment,
            center,
            rx_offset,
            ry_offset,
            65536,
            overlap,
            options,
            step_count,
        );
        let ghost p1v = pts1@;
        let mut result: Vec<Vec<Point>> = Vec::new();
        result.push(pts1);

        if !options.disable_multi_stroke {
            let stroke2_options = RoughOptions {
                roughness: fx_mul(options.roughness, 52429),
                ..*options
            };
            proof {
                assert(stroke2_options == stroke2_opts(*options));
            }
            let jrx2: i64 = self.offset_opt(fx_mul(rx, 655), &stroke2_options, 65536);
            let rx_offset2: i64 = fx_add(rx, jrx2);
            let jry2: i64 = self.offset_opt(fx_mul(ry, 655), &stroke2_options, 65536);
            let ry_offset2: i64 = fx_add(ry, jry2);
            let ov2: i64 = self.offset(1311, 3277, &stroke2_options, 65536);
            let overlap2: i64 = fx_mul(increment, ov2);
            let pts2: Vec<Point> = self.compute_ellipse_points_varied(
                increment,
                center,
                rx_offset2,
                ry_offset2,
                32768,
                overlap2,
                &stroke2_options,
                step_count,
            );
            let ghost p2v = pts2@;
            let ghost rvold = result@;
            result.push(pts2);
            proof {
                crate::lines::lemma_views_push(rvold, pts2);
                assert(views(result@) =~= seq![p1v, p2v]);
            }
        } else {
            proof {
                assert(views(result@) =~= seq![p1v]);
            }
        }

        proof {
            reveal(crate::shapes::ellipse_m);
        }
        if options.dotted {
            self.rough_dotted_lines(result, options)
        } else {
            result
        }
    }

    /// A hand-drawn rectangle outline from its position and size: four
    /// edges in order, each one polyline (two under multi-stroke),
    /// re-dotted when the style is dotted.
    pub fn rough_rectangle(&mut self, position: Point, size: Point, options: &RoughOptions) -> (r:
        Vec<Vec<Point>>)
        ensures
            views(r@) == corners_shape_m(
                rect_corners(position, size),
                *options,
                old(self).seed_val(),
                old(self).draw_count(),
            ),
            final(self).seed_val() == old(self).seed_val(),
            final(self).draw_count() == old(self).draw_count() + corners_shape_draws(
                rect_corners(position, size),
                *options,
                old(self).seed_val(),
                old(self).draw_count(),
            ),
            !options.dotted ==> r@.len() == (if options.disable_multi_stroke { 4int } else { 8int }),
    {
        let ghost seed = self.seed_val();
        let ghost d0 = self.draw_count();
        let c1 = Point { x: fx_add(position.x, size.x), y: position.y };
        let c2 = Point { x: fx_add(position.x, size.x), y: fx_add(position.y, size.y) };
        let c3 = Point { x: position.x, y: fx_add(position.y, size.y) };
        let mut corners: Vec<Point> = Vec::new();
        corners.push(position);
        corners.push(c1);
        corners.push(c2);
        corners.push(c3);
        proof {
            assert(corners@ =~= rect_corners(position, size));
        }
        let lines: Vec<Vec<Point>> = self.corner_lines(&corners, options);
        proof {
            if !options.dotted {
                lemma_edge_lines_len(corners@, *options, seed, d0, 0);
            }
        }
        if options.dotted {
            self.rough_dotted_lines(lines, options)
        } else {
            lines
        }
    }

    /// A hand-drawn diamond outline: the rectangle's edge midpoints
    /// walked as corners.
    pub fn rough_diamond(&mut self, position: Point, size: Point, options: &RoughOptions) -> (r:
        Vec<Vec<Point>>)
        ensures
            views(r@) == corners_shape_m(
                diamond_corners(position, size),
                *options,
                old(self).seed_val(),
                old(self).draw_count(),
            ),
            final(self).seed_val() == old(self).seed_val(),
            final(self).draw_count() == old(self).draw_count() + corners_shape_draws(
                diamond_corners(position, size),
                *options,
                old(self).seed_val(),
                old(self).draw_count(),
            ),
            !options.dotted ==> r@.len() == (if options.disable_multi_stroke { 4int } else { 8int }),
    {
        let ghost seed = self.seed_val();
        let ghost d0 = self.draw_count();
        let center_x: i64 = fx_add(position.x, fx_divi(size.x, 2));
        let center_y: i64 = fx_add(position.y, fx_divi(size.y, 2));
        let mut corners: Vec<Point> = Vec::new();
        corners.push(Point { x: center_x, y: position.y });
        corners.push(Point { x: fx_add(position.x, size.x), y: center_y });
        corners.push(Point { x: center_x, y: fx_add(position.y, size.y) });
        corners.push(Point { x: position.x, y: center_y });
        proof {
            assert(corners@ =~= diamond_corners(position, size));
        }
        let lines: Vec<Vec<Point>> = self.corner_lines(&corners, options);
        proof {
            if !options.dotted {
                lemma_edge_lines_len(corners@, *options, seed, d0, 0);
            }
        }
        if options.dotted {
            self.rough_dotted_lines(lines, options)
        } else {
            lines
        }
    }
}

} // verus!
