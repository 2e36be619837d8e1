//! The bowed-line synthesizer, the cubic Bezier evaluator and the
//! dotted-line routines.
//!
//! Each drawing method is specified against a spec-level model: the
//! returned polyline equals the model applied to the endpoints, the
//! style, the seed and the generator's draw position, and the draw
//! position advances by a number of draws that depends on the inputs
//! alone. Determinism of the synthesis is therefore part of every
//! contract.

use vstd::prelude::*;
use crate::fixed::{
    Fx, FX_LIM, fxadd, fxsub, fxmul, fxscale, fxdivi, fxdiv, fxabs, fxmax, fxmin, fxlen, fx_of,
    fx_add, fx_sub, fx_mul, fx_scale, fx_divi, fx_div, fx_abs, fx_max, fx_min, fx_len, fx_from,
};
use crate::rough::{
    Point, pt, RoughOptions, RoughGenerator, rand_fx, offset_opt_m, dot_variant,
};

verus! {

/// Whether a point's coordinates lie inside the saturation range; the
/// engine only ever produces such points.
pub open spec fn in_range_pt(p: Point) -> bool {
    -FX_LIM <= p.x <= FX_LIM && -FX_LIM <= p.y <= FX_LIM
}

/// Roughness gain by segment length: full wobble under 200 units, 0.4
/// above 500 units, interpolated linearly in between.
pub open spec fn line_gain(len: int) -> int {
    if len < 13107200 {
        65536
    } else if len > 32768000 {
        26214
    } else {
        fxsub(80832, fxmul(len, 109))
    }
}

/// Endpoint jitter amplitude: the style's bound, shrunk to a tenth of
/// the segment length when ten times the bound exceeds that length.
pub open spec fn clamped_offset(o: RoughOptions, len: int) -> int {
    if fxscale(fxabs(o.max_randomness_offset as int), 10) > len {
        fxdivi(len, 10)
    } else {
        o.max_randomness_offset as int
    }
}

/// One cubic Bezier sample at parameter i/n, by the Bernstein basis,
/// with every operation the saturating fixed-point one.
#[verifier::opaque]
pub open spec fn bezier_pt(p0: Point, p1: Point, p2: Point, p3: Point, i: int, n: int) -> Point {
    let t = fxdiv(fx_of(i), fx_of(n));
    let u = fxsub(65536, t);
    let tt = fxmul(t, t);
    let uu = fxmul(u, u);
    let uuu = fxmul(uu, u);
    let ttt = fxmul(tt, t);
    pt(
        fxadd(
            fxadd(
                fxadd(fxmul(uuu, p0.x as int), fxmul(fxmul(fxscale(uu, 3), t), p1.x as int)),
                fxmul(fxmul(fxscale(u, 3), tt), p2.x as int),
            ),
            fxmul(ttt, p3.x as int),
        ),
        fxadd(
            fxadd(
                fxadd(fxmul(uuu, p0.y as int), fxmul(fxmul(fxscale(uu, 3), t), p1.y as int)),
                fxmul(fxmul(fxscale(u, 3), tt), p2.y as int),
            ),
            fxmul(ttt, p3.y as int),
        ),
    )
}

/// The n Bezier samples at parameters 1/n .. n/n.
pub open spec fn bezier_seq(p0: Point, p1: Point, p2: Point, p3: Point, n: int) -> Seq<Point> {
    Seq::new(n as nat, |j: int| bezier_pt(p0, p1, p2, p3, j + 1, n))
}

/// The solid bowed line: a jittered start point followed by ten Bezier
/// samples toward a jittered end point, through two jittered control
/// points placed with the diverge fraction and the bowing displacement.
#[verifier::opaque]
pub open spec fn solid_line_m(s: Point, e: Point, o: RoughOptions, seed: u64, d0: nat) -> Seq<
    Point,
> {
    let len = fxlen(fxsub(e.x as int, s.x as int), fxsub(e.y as int, s.y as int));
    let gain = line_gain(len);
    let off = clamped_offset(o, len);
    let rough = o.roughness as int;
    let diverge = fxadd(13107, fxmul(rand_fx(seed, d0), 13107));
    let bow = fxmul(o.bowing as int, o.max_randomness_offset as int);
    let mdx0 = fxdivi(fxmul(bow, fxsub(e.y as int, s.y as int)), 200);
    let mdy0 = fxdivi(fxmul(bow, fxsub(s.x as int, e.x as int)), 200);
    let mdx = fxadd(mdx0, offset_opt_m(mdx0, rough, gain, seed, d0 + 1));
    let mdy = fxadd(mdy0, offset_opt_m(mdy0, rough, gain, seed, d0 + 2));
    let skip: nat = if o.preserve_vertices { 0 } else { 2 };
    let p0 = if o.preserve_vertices {
        s
    } else {
        pt(
            fxadd(s.x as int, offset_opt_m(off, rough, gain, seed, d0 + 3)),
            fxadd(s.y as int, offset_opt_m(off, rough, gain, seed, d0 + 4)),
        )
    };
    let cp1 = pt(
        fxadd(
            fxadd(fxadd(mdx, s.x as int), fxmul(fxsub(e.x as int, s.x as int), diverge)),
            offset_opt_m(off, rough, gain, seed, d0 + 3 + skip),
        ),
        fxadd(
            fxadd(fxadd(mdy, s.y as int), fxmul(fxsub(e.y as int, s.y as int), diverge)),
            offset_opt_m(off, rough, gain, seed, d0 + 4 + skip),
        ),
    );
    let cp2 = pt(
        fxadd(
            fxadd(fxadd(mdx, s.x as int), fxmul(fxscale(fxsub(e.x as int, s.x as int), 2), diverge)),
            offset_opt_m(off, rough, gain, seed, d0 + 5 + skip),
        ),
        fxadd(
            fxadd(fxadd(mdy, s.y as int), fxmul(fxscale(fxsub(e.y as int, s.y as int), 2), diverge)),
            offset_opt_m(off, rough, gain, seed, d0 + 6 + skip),
        ),
    );
    let p3 = if o.preserve_vertices {
        e
    } else {
        pt(
            fxadd(e.x as int, offset_opt_m(off, rough, gain, seed, d0 + 7 + skip)),
            fxadd(e.y as int, offset_opt_m(off, rough, gain, seed, d0 + 8 + skip)),
        )
    };
    seq![p0] + bezier_seq(p0, cp1, cp2, p3, 10)
}

/// Draws consumed by a solid line: seven, plus four endpoint jitters
/// unless the vertices are preserved.
pub open spec fn solid_line_draws(o: RoughOptions) -> nat {
    if o.preserve_vertices { 7nat } else { 11nat }
}

/// Spacing between dot centers: four stroke widths, at least 8 units.
pub open spec fn dot_spacing(o: RoughOptions) -> int {
    fxmax(fxscale(o.stroke_width as int, 4), 524288)
}

/// How many dots a segment of the given length receives: the floor of
/// length over spacing, raised to one for lengths above 5 units.
pub open spec fn dot_count(len: int, o: RoughOptions) -> int {
    let nd = len / dot_spacing(o);
    if nd == 0 && len > 327680 {
        1
    } else {
        nd
    }
}

/// One dot center: the segment position centered in its slot, nudged
/// along the direction and jittered sideways.
#[verifier::opaque]
pub open spec fn dot_pt(
    s: Point,
    o: RoughOptions,
    seed: u64,
    d: nat,
    i: int,
    num: int,
    len: int,
    dirx: int,
    diry: int,
) -> Point {
    let rough = o.roughness as int;
    let t = fxdiv(fxadd(fx_of(i), 32768), fx_of(num));
    let base = fxmul(t, len);
    let along = offset_opt_m(fxmul(o.stroke_width as int, 19661), rough, 19661, seed, d);
    let actual = fxmin(fxmax(fxadd(base, along), 0), len);
    pt(
        fxadd(
            fxadd(s.x as int, fxmul(dirx, actual)),
            offset_opt_m(fxmul(o.stroke_width as int, 13107), rough, 13107, seed, d + 1),
        ),
        fxadd(
            fxadd(s.y as int, fxmul(diry, actual)),
            offset_opt_m(fxmul(o.stroke_width as int, 13107), rough, 13107, seed, d + 2),
        ),
    )
}

/// The dotted line: evenly spaced dot centers along the segment; a
/// segment shorter than one unit degenerates to its two endpoints.
#[verifier::opaque]
pub open spec fn dotted_line_m(s: Point, e: Point, o: RoughOptions, seed: u64, d0: nat) -> Seq<
    Point,
> {
    let dxv = fxsub(e.x as int, s.x as int);
    let dyv = fxsub(e.y as int, s.y as int);
    let len = fxlen(dxv, dyv);
    if len < 65536 {
        seq![s, e]
    } else {
        let num = dot_count(len, o);
        if num == 0 {
            Seq::empty()
        } else {
            let dirx = fxdiv(dxv, len);
            let diry = fxdiv(dyv, len);
            Seq::new(
                num as nat,
                |j: int| dot_pt(s, o, seed, (d0 + 3 * j) as nat, j, num, len, dirx, diry),
            )
        }
    }
}

/// Draws consumed by a dotted line: three per dot.
pub open spec fn dotted_line_draws(s: Point, e: Point, o: RoughOptions) -> nat {
    let len = fxlen(fxsub(e.x as int, s.x as int), fxsub(e.y as int, s.y as int));
    if len < 65536 {
        0nat
    } else {
        (3 * dot_count(len, o)) as nat
    }
}

/// The bowed-line model: dotted styles delegate to the dotted model.
pub open spec fn line_m(s: Point, e: Point, o: RoughOptions, seed: u64, d0: nat) -> Seq<Point> {
    if o.dotted {
        dotted_line_m(s, e, o, seed, d0)
    } else {
        solid_line_m(s, e, o, seed, d0)
    }
}

/// Draws consumed by the bowed line.
pub open spec fn line_m_draws(s: Point, e: Point, o: RoughOptions) -> nat {
    if o.dotted {
        dotted_line_draws(s, e, o)
    } else {
        solid_line_draws(o)
    }
}

/// The views of a sequence of point vectors, polyline by polyline.
pub open spec fn views(v: Seq<Vec<Point>>) -> Seq<Seq<Point>> {
    Seq::new(v.len(), |i: int| v[i]@)
}

/// Re-dot one polyline: each consecutive point pair becomes a dotted
/// segment, empty segments dropped, from position `j` on.
pub open spec fn dline_segs_m(line: Seq<Point>, o: RoughOptions, seed: u64, d0: nat, j: int) -> Seq<
    Seq<Point>,
>
    decreases line.len() - j,
{
    if j < 0 || j >= line.len() - 1 {
        Seq::empty()
    } else {
        let seg = dotted_line_m(line[j], line[j + 1], o, seed, d0);
        let rest = dline_segs_m(
            line,
            o,
            seed,
            d0 + dotted_line_draws(line[j], line[j + 1], o),
            j + 1,
        );
        if seg.len() > 0 {
            seq![seg] + rest
        } else {
            rest
        }
    }
}

/// Draws consumed by re-dotting one polyline from position `j` on.
pub open spec fn dline_segs_draws(line: Seq<Point>, o: RoughOptions, j: int) -> nat
    decreases line.len() - j,
{
    if j < 0 || j >= line.len() - 1 {
        0nat
    } else {
        dotted_line_draws(line[j], line[j + 1], o) + dline_segs_draws(line, o, j + 1)
    }
}

/// Re-dot a collection of polylines from index `k` on; polylines of
/// fewer than two points are skipped.
pub open spec fn dlines_m(lines: Seq<Seq<Point>>, o: RoughOptions, seed: u64, d0: nat, k: int) -> Seq<
    Seq<Point>,
>
    decreases lines.len() - k,
{
    if k < 0 || k >= lines.len() {
        Seq::empty()
    } else if lines[k].len() < 2 {
        dlines_m(lines, o, seed, d0, k + 1)
    } else {
        dline_segs_m(lines[k], o, seed, d0, 0) + dlines_m(
            lines,
            o,
            seed,
            d0 + dline_segs_draws(lines[k], o, 0),
            k + 1,
        )
    }
}

/// Draws consumed by re-dotting a collection from index `k` on.
pub open spec fn dlines_draws(lines: Seq<Seq<Point>>, o: RoughOptions, k: int) -> nat
    decreases lines.len() - k,
{
    if k < 0 || k >= lines.len() {
        0nat
    } else if lines[k].len() < 2 {
        dlines_draws(lines, o, k + 1)
    } else {
        dline_segs_draws(lines[k], o, 0) + dlines_draws(lines, o, k + 1)
    }
}

/// The dotted-lines mapper: under a dotted style the collection is
/// re-segmented through the dotted line, otherwise it passes through.
pub open spec fn dotted_lines_m(lines: Seq<Seq<Point>>, o: RoughOptions, seed: u64, d0: nat) -> Seq<
    Seq<Point>,
> {
    if !o.dotted {
        lines
    } else {
        dlines_m(lines, dot_variant(o), seed, d0, 0)
    }
}

/// Draws consumed by the dotted-lines mapper.
pub open spec fn dotted_lines_draws(lines: Seq<Seq<Point>>, o: RoughOptions) -> nat {
    if !o.dotted {
        0nat
    } else {
        dlines_draws(lines, dot_variant(o), 0)
    }
}

/// Pushing a polyline appends its view to the collection's views.
pub proof fn lemma_views_push(v: Seq<Vec<Point>>, x: Vec<Point>)
    ensures
        views(v.push(x)) == views(v) + seq![x@],
{
    assert(views(v.push(x)) =~= views(v) + seq![x@]);
}

impl RoughGenerator {
    /// Sample the cubic Bezier through the four control points at the
    /// given number of evenly spaced parameters after zero.
    pub fn bezier_curve(&self, p0: Point, p1: Point, p2: Point, p3: Point, segments: u32) -> (r:
        Vec<Point>)
        ensures
            r@ == bezier_seq(p0, p1, p2, p3, segments as int),
    {
        let mut points: Vec<Point> = Vec::new();
        let n: u64 = segments as u64;
        let mut i: u64 = 1;
        while i <= n
            invariant
                1 <= i <= n + 1,
                n == segments,
                points@ == Seq::new(
                    (i - 1) as nat,
                    |j: int| bezier_pt(p0, p1, p2, p3, j + 1, n as int),
                ),
            decreases n + 1 - i,
        {
            let t: i64 = fx_div(fx_from(i as i64), fx_from(n as i64));
            let u: i64 = fx_sub(65536, t);
            let tt: i64 = fx_mul(t, t);
            let uu: i64 = fx_mul(u, u);
            let uuu: i64 = fx_mul(uu, u);
            let ttt: i64 = fx_mul(tt, t);
            let x: i64 = fx_add(
                fx_add(
                    fx_add(fx_mul(uuu, p0.x), fx_mul(fx_mul(fx_scale(uu, 3), t), p1.x)),
                    fx_mul(fx_mul(fx_scale(u, 3), tt), p2.x),
                ),
                fx_mul(ttt, p3.x),
            );
            let y: i64 = fx_add(
                fx_add(
                    fx_add(fx_mul(uuu, p0.y), fx_mul(fx_mul(fx_scale(uu, 3), t), p1.y)),
                    fx_mul(fx_mul(fx_scale(u, 3), tt), p2.y),
                ),
                fx_mul(ttt, p3.y),
            );
            points.push(Point { x, y });
            proof {
                reveal(crate::lines::bezier_pt);
                assert(points@ =~= Seq::new(
                    i as nat,
                    |j: int| bezier_pt(p0, p1, p2, p3, j + 1, n as int),
                ));
            }
            i = i + 1;
        }
        points
    }

    /// One hand-drawn straight line between the endpoints, or a row of
    /// dot centers when the style is dotted. The result is exactly the
    /// model's polyline for the generator's seed and draw position.
    #[verifier::rlimit(60)]
    pub fn rough_line(&mut self, start: Point, end: Point, options: &RoughOptions) -> (r: Vec<
        Point,
    >)
        ensures
            r@ == line_m(start, end, *options, old(self).seed_val(), old(self).draw_count()),
            final(self).seed_val() == old(self).seed_val(),
            final(self).draw_count() == old(self).draw_count() + line_m_draws(
                start,
                end,
                *options,
            ),
            !options.dotted ==> r@.len() == 11,
            (!options.dotted && options.preserve_vertices) ==> r@[0] == start,
    {
        if options.dotted {
            return self.rough_dotted_line(start, end, options);
        }
        let ghost seed = self.seed_val();
        let ghost d0 = self.draw_count();
        let dxv: i64 = fx_sub(end.x, start.x);
        let dyv: i64 = fx_sub(end.y, start.y);
        let length: i64 = fx_len(dxv, dyv);

        let roughness_gain: i64 = if length < 13107200 {
            65536
        } else if length > 32768000 {
            26214
        } else {
            fx_sub(80832, fx_mul(length, 109))
        };

        let mut offs: i64 = options.max_randomness_offset;
        if fx_scale(fx_abs(offs), 10) > length {
            offs = fx_divi(length, 10);
        }

        let rv: i64 = self.random();
        let diverge: i64 = fx_add(13107, fx_mul(rv, 13107));
        let bow: i64 = fx_mul(options.bowing, options.max_randomness_offset);
        let mdx0: i64 = fx_divi(fx_mul(bow, fx_sub(end.y, start.y)), 200);
        let mdy0: i64 = fx_divi(fx_mul(bow, fx_sub(start.x, end.x)), 200);
        let jx: i64 = self.offset_opt(mdx0, options, roughness_gain);
        let mdx: i64 = fx_add(mdx0, jx);
        let jy: i64 = self.offset_opt(mdy0, options, roughness_gain);
        let mdy: i64 = fx_add(mdy0, jy);

        let p0: Point = if options.preserve_vertices {
            start
        } else {
            let ox: i64 = self.offset_opt(offs, options, roughness_gain);
            let oy: i64 = self.offset_opt(offs, options, roughness_gain);
            Point { x: fx_add(start.x, ox), y: fx_add(start.y, oy) }
        };

        let o1x: i64 = self.offset_opt(offs, options, roughness_gain);
        let c1x: i64 = fx_add(
            fx_add(fx_add(mdx, start.x), fx_mul(fx_sub(end.x, start.x), diverge)),
            o1x,
        );
        let o1y: i64 = self.offset_opt(offs, options, roughness_gain);
        let c1y: i64 = fx_add(
            fx_add(fx_add(mdy, start.y), fx_mul(fx_sub(end.y, start.y), diverge)),
            o1y,
        );
        let cp1 = Point { x: c1x, y: c1y };

        let o2x: i64 = self.offset_opt(offs, options, roughness_gain);
        let c2x: i64 = fx_add(
            fx_add(fx_add(mdx, start.x), fx_mul(fx_scale(fx_sub(end.x, start.x), 2), diverge)),
            o2x,
        );
        let o2y: i64 = self.offset_opt(offs, options, roughness_gain);
        let c2y: i64 = fx_add(
            fx_add(fx_add(mdy, start.y), fx_mul(fx_scale(fx_sub(end.y, start.y), 2), diverge)),
            o2y,
        );
        let cp2 = Point { x: c2x, y: c2y };

        let p3: Point = if options.preserve_vertices {
            end
        } else {
            let ex: i64 = self.offset_opt(offs, options, roughness_gain);
            let ey: i64 = self.offset_opt(offs, options, roughness_gain);
            Point { x: fx_add(end.x, ex), y: fx_add(end.y, ey) }
        };

        let mut points: Vec<Point> = Vec::new();
        points.push(p0);
        let mut bezier_points: Vec<Point> = self.bezier_curve(p0, cp1, cp2, p3, 10);
        points.append(&mut bezier_points);
        proof {
            reveal(crate::lines::solid_line_m);
            assert(points@ =~= solid_line_m(start, end, *options, seed, d0));
        }
        points
    }

    /// Evenly spaced dot centers along one segment; at least one dot
    /// for segments above 5 units, none for shorter ones, and the bare
    /// endpoints below one unit of length.
    pub fn rough_dotted_line(&mut self, start: Point, end: Point, options: &RoughOptions) -> (r:
        Vec<Point>)
        ensures
            r@ == dotted_line_m(start, end, *options, old(self).seed_val(), old(self).draw_count()),
            final(self).seed_val() == old(self).seed_val(),
            final(self).draw_count() == old(self).draw_count() + dotted_line_draws(
                start,
                end,
                *options,
            ),
    {
        let ghost seed = self.seed_val();
        let ghost d0 = self.draw_count();
        let dxv: i64 = fx_sub(end.x, start.x);
        let dyv: i64 = fx_sub(end.y, start.y);
        let total_length: i64 = fx_len(dxv, dyv);

        if total_length < 65536 {
            let mut points: Vec<Point> = Vec::new();
            points.push(start);
            points.push(end);
            proof {
                reveal(crate::lines::dotted_line_m);
                assert(points@ =~= dotted_line_m(start, end, *options, seed, d0));
            }
            return points;
        }

        let spacing: i64 = fx_max(fx_scale(options.stroke_width, 4), 524288);
        let nd: u64 = (total_length as u64) / (spacing as u64);
        let num: u64 = if nd == 0 && total_length > 327680 {
            1
        } else {
            nd
        };
        proof {
            assert(num as int == dot_count(
                fxlen(
                    fxsub(end.x as int, start.x as int),
                    fxsub(end.y as int, start.y as int),
                ),
                *options,
            ));
        }

        let mut points: Vec<Point> = Vec::new();
        if num == 0 {
            proof {
                reveal(crate::lines::dotted_line_m);
                assert(points@ =~= dotted_line_m(start, end, *options, seed, d0));
            }
            return points;
        }

        let dirx: i64 = fx_div(dxv, total_length);
        let diry: i64 = fx_div(dyv, total_length);

        let mut i: u64 = 0;
        while i < num
            invariant
                0 <= i <= num,
                1 <= num,
                num <= 0x8000000000000,
                total_length as int == fxlen(
                    fxsub(end.x as int, start.x as int),
                    fxsub(end.y as int, start.y as int),
                ),
                num as int == dot_count(total_length as int, *options),
                dirx as int == fxdiv(fxsub(end.x as int, start.x as int), total_length as int),
                diry as int == fxdiv(fxsub(end.y as int, start.y as int), total_length as int),
                self.seed_val() == seed,
                self.draw_count() == d0 + 3 * i,
                points@ == Seq::new(
                    i as nat,
                    |j: int| dot_pt(
                        start,
                        *options,
                        seed,
                        (d0 + 3 * j) as nat,
                        j,
                        num as int,
                        total_length as int,
                        dirx as int,
                        diry as int,
                    ),
                ),
            decreases num - i,
        {
            let t: i64 = fx_div(fx_add(fx_from(i as i64), 32768), fx_from(num as i64));
            let base_pos: i64 = fx_mul(t, total_length);
            let along: i64 = self.offset_opt(fx_mul(options.stroke_width, 19661), options, 19661);
            let actual_pos: i64 = fx_min(fx_max(fx_add(base_pos, along), 0), total_length);
            let ox: i64 = self.offset_opt(fx_mul(options.stroke_width, 13107), options, 13107);
            let px: i64 = fx_add(fx_add(start.x, fx_mul(dirx, actual_pos)), ox);
            let oy: i64 = self.offset_opt(fx_mul(options.stroke_width, 13107), options, 13107);
            let py: i64 = fx_add(fx_add(start.y, fx_mul(diry, actual_pos)), oy);
            points.push(Point { x: px, y: py });
            proof {
                reveal(crate::lines::dot_pt);
                assert(points@ =~= Seq::new(
                    (i + 1) as nat,
                    |j: int| dot_pt(
                        start,
                        *options,
                        seed,
                        (d0 + 3 * j) as nat,
                        j,
                        num as int,
                        total_length as int,
                        dirx as int,
                        diry as int,
                    ),
                ));
            }
            i = i + 1;
        }
        proof {
            reveal(crate::lines::dotted_line_m);
            assert(points@ =~= dotted_line_m(start, end, *options, seed, d0));
        }
        points
    }

    /// Convert already synthesized polylines into a dotted variant by
    /// re-segmenting each consecutive point pair through the dotted
    /// line; under a non-dotted style the input passes through.
    pub fn rough_dotted_lines(&mut self, lines: Vec<Vec<Point>>, options: &RoughOptions) -> (r:
        Vec<Vec<Point>>)
        ensures
            views(r@) == dotted_lines_m(
                views(lines@),
                *options,
                old(self).seed_val(),
                old(self).draw_count(),
            ),
            final(self).seed_val() == old(self).seed_val(),
            final(self).draw_count() == old(self).draw_count() + dotted_lines_draws(
                views(lines@),
                *options,
            ),
    {
        if !options.dotted {
            return lines;
        }
        let ghost seed = self.seed_val();
        let ghost d0 = self.draw_count();
        let ghost l = views(lines@);
        let ghost o2 = dot_variant(*options);
        let ghost target = dlines_m(l, o2, seed, d0, 0);
        let ghost target_draws = dlines_draws(l, o2, 0);

        let mut dot_options: RoughOptions = *options;
        dot_options.dotted = false;
        proof {
            assert(dot_options == o2);
        }

        let mut dotted_lines: Vec<Vec<Point>> = Vec::new();
        proof {
            assert(views(dotted_lines@) + dlines_m(l, o2, seed, d0, 0) =~= target);
        }
        let mut k: usize = 0;
        while k < lines.len()
            invariant
                k <= lines.len(),
                l == views(lines@),
                o2 == dot_variant(*options),
                options.dotted,
                dot_options == o2,
                self.seed_val() == seed,
                views(dotted_lines@) + dlines_m(l, o2, seed, self.draw_count(), k as int)
                    == target,
                self.draw_count() + dlines_draws(l, o2, k as int) == d0 + target_draws,
            decreases lines.len() - k,
        {
            let line_len: usize = lines[k].len();
            proof {
                assert(l[k as int] == lines@[k as int]@);
            }
            if line_len >= 2 {
                let ghost dk = self.draw_count();
                let mut j: usize = 0;
                proof {
                    assert(dlines_m(l, o2, seed, dk, k as int) == dline_segs_m(
                        l[k as int],
                        o2,
                        seed,
                        dk,
                        0,
                    ) + dlines_m(l, o2, seed, dk + dline_segs_draws(l[k as int], o2, 0), k as int + 1));
                    assert(dlines_draws(l, o2, k as int) == dline_segs_draws(l[k as int], o2, 0)
                        + dlines_draws(l, o2, k as int + 1));
                }
                while j < line_len - 1
                    invariant
                        0 <= j <= line_len - 1,
                        k < lines.len(),
                        2 <= line_len == l[k as int].len(),
                        l == views(lines@),
                        l[k as int] == lines@[k as int]@,
                        o2 == dot_variant(*options),
                        dot_options == o2,
                        self.seed_val() == seed,
                        views(dotted_lines@) + (dline_segs_m(
                            l[k as int],
                            o2,
                            seed,
                            self.draw_count(),
                            j as int,
                        ) + dlines_m(
                            l,
                            o2,
                            seed,
                            self.draw_count() + dline_segs_draws(l[k as int], o2, j as int),
                            k as int + 1,
                        )) == target,
                        self.draw_count() + dline_segs_draws(l[k as int], o2, j as int)
                            + dlines_draws(l, o2, k as int + 1) == d0 + target_draws,
                    decreases line_len - j,
                {
                    let ghost dc = self.draw_count();
                    let a: Point = lines[k][j];
                    let b: Point = lines[k][j + 1];
                    proof {
                        assert(a == l[k as int][j as int]);
                        assert(b == l[k as int][j as int + 1]);
                    }
                    let seg: Vec<Point> = self.rough_dotted_line(a, b, &dot_options);
                    let ghost segv = seg@;
                    let ghost rest = dline_segs_m(
                        l[k as int],
                        o2,
                        seed,
                        self.draw_count(),
                        j as int + 1,
                    );
                    let ghost tail = dlines_m(
                        l,
                        o2,
                        seed,
                        self.draw_count() + dline_segs_draws(l[k as int], o2, j as int + 1),
                        k as int + 1,
                    );
                    proof {
                        assert(dline_segs_m(l[k as int], o2, seed, dc, j as int) == (
                        if segv.len() > 0 {
                            seq![segv] + rest
                        } else {
                            rest
                        }));
                    }
                    if seg.len() > 0 {
                        let ghost dvold = dotted_lines@;
                        dotted_lines.push(seg);
                        proof {
                            lemma_views_push(dvold, seg);
                            assert((views(dvold) + seq![segv]) + (rest + tail) =~= views(dvold) + ((
                            seq![segv] + rest) + tail));
                        }
                    }
                    j = j + 1;
                }
                proof {
                    assert(dline_segs_m(l[k as int], o2, seed, self.draw_count(), j as int)
                        =~= Seq::<Seq<Point>>::empty());
                    assert(views(dotted_lines@) + (Seq::<Seq<Point>>::empty() + dlines_m(
                        l,
                        o2,
                        seed,
                        self.draw_count(),
                        k as int + 1,
                    )) =~= views(dotted_lines@) + dlines_m(
                        l,
                        o2,
                        seed,
                        self.draw_count(),
                        k as int + 1,
                    ));
                }
            } else {
                proof {
                    assert(dlines_m(l, o2, seed, self.draw_count(), k as int) == dlines_m(
                        l,
                        o2,
                        seed,
                        self.draw_count(),
                        k as int + 1,
                    ));
                    assert(dlines_draws(l, o2, k as int) == dlines_draws(l, o2, k as int + 1));
                }
            }
            k = k + 1;
        }
        proof {
            assert(dlines_m(l, o2, seed, self.draw_count(), k as int)
                =~= Seq::<Seq<Point>>::empty());
            assert(views(dotted_lines@) + Seq::<Seq<Point>>::empty() =~= views(dotted_lines@));
        }
        dotted_lines
    }
}

} // verus!
