//! Arrow synthesizers: the outline-head arrow, the solid-head arrow,
//! and the fully dotted arrow.
//!
//! An arrow is a shaft (one or two bowed lines) plus a head: either
//! two bowed head edges, a single exact triangle for solid fill, or
//! rows of densely spaced dots. Every method's result equals its
//! spec-level model.

use vstd::prelude::*;
use crate::fixed::{
    Fx, fxadd, fxsub, fxmul, fxscale, fxdiv, fxmax, fxlen, fx_of,
    fx_add, fx_sub, fx_mul, fx_scale, fx_div, fx_max, fx_len, fx_from,
};
use crate::rough::{Point, pt, RoughOptions, RoughGenerator, offset_opt_m};
use crate::lines::{
    line_m, line_m_draws, dotted_line_m, dotted_line_draws, views, dotted_lines_m,
    dotted_lines_draws, lemma_views_push,
};
use crate::trig::{sinq, cosq, sin_fx, cos_fx};

verus! {

/// A solid arrowhead: an exact triangle, decoupled from the jitter
/// pipeline and filled downstream.
#[derive(Clone, Copy, PartialEq, Eq, Structural, Debug)]
pub struct ArrowHead {
    pub left: Point,
    pub tip: Point,
    pub right: Point,
}

/// The left head-edge endpoint: the tip pushed back along the shaft
/// direction rotated by the head angle.
pub open spec fn head_left(e: Point, dirx: int, diry: int, head_len: int, ca: int, sa: int) -> Point {
    pt(
        fxsub(e.x as int, fxmul(head_len, fxsub(fxmul(dirx, ca), fxmul(diry, sa)))),
        fxsub(e.y as int, fxmul(head_len, fxadd(fxmul(diry, ca), fxmul(dirx, sa)))),
    )
}

/// The right head-edge endpoint: the mirror rotation of `head_left`.
pub open spec fn head_right(e: Point, dirx: int, diry: int, head_len: int, ca: int, sa: int) -> Point {
    pt(
        fxsub(e.x as int, fxmul(head_len, fxadd(fxmul(dirx, ca), fxmul(diry, sa)))),
        fxsub(e.y as int, fxmul(head_len, fxsub(fxmul(diry, ca), fxmul(dirx, sa)))),
    )
}

/// The outline-head arrow: the shaft as one or two bowed lines, then
/// two bowed head edges (doubled under multi-stroke) when the shaft
/// has positive length, re-dotted when the style is dotted. Yields
/// the polylines and the draws consumed.
#[verifier::opaque]
pub open spec fn arrow_m(s: Point, e: Point, o: RoughOptions, seed: u64, d0: nat) -> (
    Seq<Seq<Point>>,
    nat,
) {
    let rough = o.roughness as int;
    let l1 = line_m(s, e, o, seed, d0);
    let d1 = d0 + line_m_draws(s, e, o);
    let shaft = if o.disable_multi_stroke {
        seq![l1]
    } else {
        seq![l1, line_m(s, e, o, seed, d1)]
    };
    let d2 = if o.disable_multi_stroke {
        d1
    } else {
        d1 + line_m_draws(s, e, o)
    };
    let dx = fxsub(e.x as int, s.x as int);
    let dy = fxsub(e.y as int, s.y as int);
    let len = fxlen(dx, dy);
    if len > 0 {
        let head_len = fxmax(fxadd(1310720, offset_opt_m(327680, rough, 65536, seed, d2)), 655360);
        let head_angle = fxadd(32768, offset_opt_m(6554, rough, 65536, seed, d2 + 1));
        let dirx = fxdiv(dx, len);
        let diry = fxdiv(dy, len);
        let ca = cosq(head_angle);
        let sa = sinq(head_angle);
        let left = head_left(e, dirx, diry, head_len, ca, sa);
        let right = head_right(e, dirx, diry, head_len, ca, sa);
        let ll = line_m(left, e, o, seed, d2 + 2);
        let d3 = d2 + 2 + line_m_draws(left, e, o);
        let rl = line_m(right, e, o, seed, d3);
        let d4 = d3 + line_m_draws(right, e, o);
        let base = shaft + seq![ll, rl];
        if o.disable_multi_stroke {
            (dotted_lines_m(base, o, seed, d4), ((d4 - d0) + dotted_lines_draws(base, o)) as nat)
        } else {
            let ll2 = line_m(left, e, o, seed, d4);
            let d5 = d4 + line_m_draws(left, e, o);
            let rl2 = line_m(right, e, o, seed, d5);
            let d6 = d5 + line_m_draws(right, e, o);
            let lines = base + seq![ll2, rl2];
            (dotted_lines_m(lines, o, seed, d6), ((d6 - d0) + dotted_lines_draws(lines, o)) as nat)
        }
    } else {
        (dotted_lines_m(shaft, o, seed, d2), ((d2 - d0) + dotted_lines_draws(shaft, o)) as nat)
    }
}

/// The solid-head arrow: the same shaft, but the head is one exact
/// triangle, untouched by dotting. Yields the shaft polylines, the
/// head, and the draws consumed.
#[verifier::opaque]
pub open spec fn arrow_solid_m(s: Point, e: Point, o: RoughOptions, seed: u64, d0: nat) -> (
    Seq<Seq<Point>>,
    Option<ArrowHead>,
    nat,
) {
    let rough = o.roughness as int;
    let l1 = line_m(s, e, o, seed, d0);
    let d1 = d0 + line_m_draws(s, e, o);
    let shaft = if o.disable_multi_stroke {
        seq![l1]
    } else {
        seq![l1, line_m(s, e, o, seed, d1)]
    };
    let d2 = if o.disable_multi_stroke {
        d1
    } else {
        d1 + line_m_draws(s, e, o)
    };
    let dx = fxsub(e.x as int, s.x as int);
    let dy = fxsub(e.y as int, s.y as int);
    let len = fxlen(dx, dy);
    if len > 0 {
        let head_len = fxmax(fxadd(1310720, offset_opt_m(327680, rough, 65536, seed, d2)), 655360);
        let head_angle = fxadd(32768, offset_opt_m(6554, rough, 65536, seed, d2 + 1));
        let dirx = fxdiv(dx, len);
        let diry = fxdiv(dy, len);
        let ca = cosq(head_angle);
        let sa = sinq(head_angle);
        let head = ArrowHead {
            left: head_left(e, dirx, diry, head_len, ca, sa),
            tip: e,
            right: head_right(e, dirx, diry, head_len, ca, sa),
        };
        (
            dotted_lines_m(shaft, o, seed, d2 + 2),
            Some(head),
            ((d2 + 2 - d0) + dotted_lines_draws(shaft, o)) as nat,
        )
    } else {
        (
            dotted_lines_m(shaft, o, seed, d2),
            None,
            ((d2 - d0) + dotted_lines_draws(shaft, o)) as nat,
        )
    }
}

/// A dense row of evenly spaced dots between two points, at least two
/// dots (the endpoints of the row) unless the gap is under half a
/// unit. Draws nothing.
pub open spec fn dense_dots_m(p1: Point, p2: Point, o: RoughOptions) -> Seq<Point> {
    let ddx = fxsub(p2.x as int, p1.x as int);
    let ddy = fxsub(p2.y as int, p1.y as int);
    let seg_len = fxlen(ddx, ddy);
    let spacing = fxmax(fxscale(o.stroke_width as int, 2), 393216);
    if seg_len < 32768 {
        Seq::empty()
    } else {
        let count = fxmax(seg_len / spacing, 1);
        Seq::new(
            (count + 1) as nat,
            |i: int| pt(
                fxadd(p1.x as int, fxmul(ddx, fxdiv(fx_of(i), fx_of(count)))),
                fxadd(p1.y as int, fxmul(ddy, fxdiv(fx_of(i), fx_of(count)))),
            ),
        )
    }
}

/// The fully dotted arrow: a dotted shaft, then a dense dot row per
/// head edge for arrows of at least one unit of length. Yields the
/// dot rows and the draws consumed.
#[verifier::opaque]
pub open spec fn dotted_arrow_m(s: Point, e: Point, o: RoughOptions, seed: u64, d0: nat) -> (
    Seq<Seq<Point>>,
    nat,
) {
    let rough = o.roughness as int;
    let shaft = dotted_line_m(s, e, o, seed, d0);
    let d1 = d0 + dotted_line_draws(s, e, o);
    let dx = fxsub(e.x as int, s.x as int);
    let dy = fxsub(e.y as int, s.y as int);
    let len = fxlen(dx, dy);
    if len < 65536 {
        (seq![shaft], (d1 - d0) as nat)
    } else {
        let head_len = fxmax(fxadd(1310720, offset_opt_m(327680, rough, 65536, seed, d1)), 786432);
        let head_angle = fxadd(32768, offset_opt_m(6554, rough, 65536, seed, d1 + 1));
        let dirx = fxdiv(dx, len);
        let diry = fxdiv(dy, len);
        let ca = cosq(head_angle);
        let sa = sinq(head_angle);
        let left = head_left(e, dirx, diry, head_len, ca, sa);
        let right = head_right(e, dirx, diry, head_len, ca, sa);
        let le = dense_dots_m(e, left, o);
        let re = dense_dots_m(e, right, o);
        let with_l = if le.len() > 0 {
            seq![shaft, le]
        } else {
            seq![shaft]
        };
        let all = if re.len() > 0 {
            with_l + seq![re]
        } else {
            with_l
        };
        (all, (d1 + 2 - d0) as nat)
    }
}

/// The dense dot row between two points; the exec twin of
/// `dense_dots_m`.
fn dense_dots(p1: Point, p2: Point, options: &RoughOptions) -> (r: Vec<Point>)
    ensures
        r@ == dense_dots_m(p1, p2, *options),
{
    let ddx: i64 = fx_sub(p2.x, p1.x);
    let ddy: i64 = fx_sub(p2.y, p1.y);
    let seg_len: i64 = fx_len(ddx, ddy);
    let spacing: i64 = fx_max(fx_scale(options.stroke_width, 2), 393216);
    let mut pts: Vec<Point> = Vec::new();
    if seg_len < 32768 {
        return pts;
    }
    let nd: u64 = (seg_len as u64) / (spacing as u64);
    let count: u64 = if nd < 1 {
        1
    } else {
        nd
    };
    let mut i: u64 = 0;
    while i <= count
        invariant
            i <= count + 1,
            1 <= count,
            count as int == fxmax(seg_len as int / spacing as int, 1),
            count <= 0x800000000000,
            seg_len as int == fxlen(fxsub(p2.x as int, p1.x as int), fxsub(p2.y as int, p1.y as int)),
            32768 <= seg_len,
            ddx as int == fxsub(p2.x as int, p1.x as int),
            ddy as int == fxsub(p2.y as int, p1.y as int),
            pts@ == Seq::new(
                i as nat,
                |j: int| pt(
                    fxadd(p1.x as int, fxmul(ddx as int, fxdiv(fx_of(j), fx_of(count as int)))),
                    fxadd(p1.y as int, fxmul(ddy as int, fxdiv(fx_of(j), fx_of(count as int)))),
                ),
            ),
        decreases count + 1 - i,
    {
        let t: i64 = fx_div(fx_from(i as i64), fx_from(count as i64));
        let px: i64 = fx_add(p1.x, fx_mul(ddx, t));
        let py: i64 = fx_add(p1.y, fx_mul(ddy, t));
        pts.push(Point { x: px, y: py });
        proof {
            assert(pts@ =~= Seq::new(
                (i + 1) as nat,
                |j: int| pt(
                    fxadd(p1.x as int, fxmul(ddx as int, fxdiv(fx_of(j), fx_of(count as int)))),
                    fxadd(p1.y as int, fxmul(ddy as int, fxdiv(fx_of(j), fx_of(count as int)))),
                ),
            ));
        }
        i = i + 1;
    }
    proof {
        assert(pts@ =~= dense_dots_m(p1, p2, *options));
    }
    pts
}

impl RoughGenerator {
    /// A hand-drawn arrow with an outline head: the shaft between the
    /// endpoints plus two bowed head edges, each doubled under
    /// multi-stroke, re-dotted when the style is dotted.
    pub fn rough_arrow(&mut self, start: Point, end: Point, options: &RoughOptions) -> (r: Vec<
        Vec<Point>,
    >)
        ensures
            views(r@) == arrow_m(start, end, *options, old(self).seed_val(), old(self).draw_count()).0,
            final(self).seed_val() == old(self).seed_val(),
            final(self).draw_count() == old(self).draw_count() + arrow_m(
                start,
                end,
                *options,
                old(self).seed_val(),
                old(self).draw_count(),
            ).1,
    {
        let ghost seed = self.seed_val();
        let ghost d0 = self.draw_count();
        let mut lines: Vec<Vec<Point>> = Vec::new();

        let shaft_line: Vec<Point> = self.rough_line(start, end, options);
        let ghost s1 = shaft_line@;
        lines.push(shaft_line);
        let ghost shaft_v = views(lines@);
        if !options.disable_multi_stroke {
            let shaft_line2: Vec<Point> = self.rough_line(start, end, options);
            let ghost s2 = shaft_line2@;
            let ghost lv = lines@;
            lines.push(shaft_line2);
            proof {
                lemma_views_push(lv, shaft_line2);
                assert(views(lines@) =~= seq![s1, s2]);
            }
        } else {
            proof {
                assert(views(lines@) =~= seq![s1]);
            }
        }
        let ghost shaft_seq = views(lines@);

        let dx: i64 = fx_sub(end.x, start.x);
        let dy: i64 = fx_sub(end.y, start.y);
        let len: i64 = fx_len(dx, dy);

        if len > 0 {
            let hj: i64 = self.offset_opt(327680, options, 65536);
            let head_len: i64 = fx_max(fx_add(1310720, hj), 655360);
            let aj: i64 = self.offset_opt(6554, options, 65536);
            let head_angle: i64 = fx_add(32768, aj);

            let dirx: i64 = fx_div(dx, len);
            let diry: i64 = fx_div(dy, len);
            let ca: i64 = cos_fx(head_angle);
            let sa: i64 = sin_fx(head_angle);

            let lx: i64 = fx_sub(end.x, fx_mul(head_len, fx_sub(fx_mul(dirx, ca), fx_mul(diry, sa))));
            let ly: i64 = fx_sub(end.y, fx_mul(head_len, fx_add(fx_mul(diry, ca), fx_mul(dirx, sa))));
            let rx: i64 = fx_sub(end.x, fx_mul(head_len, fx_add(fx_mul(dirx, ca), fx_mul(diry, sa))));
            let ry: i64 = fx_sub(end.y, fx_mul(head_len, fx_sub(fx_mul(diry, ca), fx_mul(dirx, sa))));
            let left = Point { x: lx, y: ly };
            let right = Point { x: rx, y: ry };

            let left_line: Vec<Point> = self.rough_line(left, end, options);
            let right_line: Vec<Point> = self.rough_line(right, end, options);
            let ghost llv = left_line@;
            let ghost rlv = right_line@;
            let ghost lv1 = lines@;
            lines.push(left_line);
            let ghost lv2 = lines@;
            lines.push(right_line);
            proof {
                lemma_views_push(lv1, left_line);
                lemma_views_push(lv2, right_line);
                assert(views(lines@) =~= shaft_seq + seq![llv, rlv]);
            }

            if !options.disable_multi_stroke {
                let left_line2: Vec<Point> = self.rough_line(left, end, options);
                let right_line2: Vec<Point> = self.rough_line(right, end, options);
                let ghost llv2 = left_line2@;
                let ghost rlv2 = right_line2@;
                let ghost lv3 = lines@;
                lines.push(left_line2);
                let ghost lv4 = lines@;
                lines.push(right_line2);
                proof {
                    lemma_views_push(lv3, left_line2);
                    lemma_views_push(lv4, right_line2);
                    assert(views(lines@) =~= (shaft_seq + seq![llv, rlv]) + seq![llv2, rlv2]);
                }
            }
        }

        proof {
            reveal(crate::arrows::arrow_m);
        }
        if options.dotted {
            self.rough_dotted_lines(lines, options)
        } else {
            lines
        }
    }

    /// A hand-drawn arrow whose head is one exact triangle for solid
    /// fill; dotting applies to the shaft alone, never to the head.
    pub fn rough_arrow_with_solid_head(
        &mut self,
        start: Point,
        end: Point,
        options: &RoughOptions,
    ) -> (r: (Vec<Vec<Point>>, Option<ArrowHead>))
        ensures
            views(r.0@) == arrow_solid_m(
                start,
                end,
                *options,
                old(self).seed_val(),
                old(self).draw_count(),
            ).0,
            r.1 == arrow_solid_m(start, end, *options, old(self).seed_val(), old(self).draw_count()).1,
            final(self).seed_val() == old(self).seed_val(),
            final(self).draw_count() == old(self).draw_count() + arrow_solid_m(
                start,
                end,
                *options,
                old(self).seed_val(),
                old(self).draw_count(),
            ).2,
    {
        let ghost seed = self.seed_val();
        let ghost d0 = self.draw_count();
        let mut shaft_lines: Vec<Vec<Point>> = Vec::new();

        let shaft_line: Vec<Point> = self.rough_line(start, end, options);
        let ghost s1 = shaft_line@;
        shaft_lines.push(shaft_line);
        if !options.disable_multi_stroke {
            let shaft_line2: Vec<Point> = self.rough_line(start, end, options);
            let ghost s2 = shaft_line2@;
            let ghost lv = shaft_lines@;
            shaft_lines.push(shaft_line2);
            proof {
                lemma_views_push(lv, shaft_line2);
                assert(views(shaft_lines@) =~= seq![s1, s2]);
            }
        } else {
            proof {
                assert(views(shaft_lines@) =~= seq![s1]);
            }
        }

        let dx: i64 = fx_sub(end.x, start.x);
        let dy: i64 = fx_sub(end.y, start.y);
        let len: i64 = fx_len(dx, dy);

        let arrowhead: Option<ArrowHead> = if len > 0 {
            let hj: i64 = self.offset_opt(327680, options, 65536);
            let head_len: i64 = fx_max(fx_add(1310720, hj), 655360);
            let aj: i64 = self.offset_opt(6554, options, 65536);
            let head_angle: i64 = fx_add(32768, aj);

            let dirx: i64 = fx_div(dx, len);
            let diry: i64 = fx_div(dy, len);
            let ca: i64 = cos_fx(head_angle);
            let sa: i64 = sin_fx(head_angle);

            let lx: i64 = fx_sub(end.x, fx_mul(head_len, fx_sub(fx_mul(dirx, ca), fx_mul(diry, sa))));
            let ly: i64 = fx_sub(end.y, fx_mul(head_len, fx_add(fx_mul(diry, ca), fx_mul(dirx, sa))));
            let rx: i64 = fx_sub(end.x, fx_mul(head_len, fx_add(fx_mul(dirx, ca), fx_mul(diry, sa))));
            let ry: i64 = fx_sub(end.y, fx_mul(head_len, fx_sub(fx_mul(diry, ca), fx_mul(dirx, sa))));
            Some(ArrowHead { left: Point { x: lx, y: ly }, tip: end, right: Point { x: rx, y: ry } })
        } else {
            None
        };

        proof {
            reveal(crate::arrows::arrow_solid_m);
        }
        let final_shaft_lines: Vec<Vec<Point>> = if options.dotted {
            self.rough_dotted_lines(shaft_lines, options)
        } else {
            shaft_lines
        };
        (final_shaft_lines, arrowhead)
    }

    /// A fully dotted arrow: a dotted shaft and, for arrows of at
    /// least one unit of length, a dense dot row along each head edge.
    pub fn rough_dotted_arrow(&mut self, start: Point, end: Point, options: &RoughOptions) -> (r:
        Vec<Vec<Point>>)
        ensures
            views(r@) == dotted_arrow_m(
                start,
                end,
                *options,
                old(self).seed_val(),
                old(self).draw_count(),
            ).0,
            final(self).seed_val() == old(self).seed_val(),
            final(self).draw_count() == old(self).draw_count() + dotted_arrow_m(
                start,
                end,
                *options,
                old(self).seed_val(),
                old(self).draw_count(),
            ).1,
    {
        let ghost seed = self.seed_val();
        let ghost d0 = self.draw_count();
        let shaft_points: Vec<Point> = self.rough_dotted_line(start, end, options);
        let ghost sv = shaft_points@;
        let mut lines: Vec<Vec<Point>> = Vec::new();
        lines.push(shaft_points);
        proof {
            assert(views(lines@) =~= seq![sv]);
        }

        let dx: i64 = fx_sub(end.x, start.x);
        let dy: i64 = fx_sub(end.y, start.y);
        let len: i64 = fx_len(dx, dy);
        if len < 65536 {
            proof {
                reveal(crate::arrows::dotted_arrow_m);
            }
            return lines;
        }

        let hj: i64 = self.offset_opt(327680, options, 65536);
        let head_len: i64 = fx_max(fx_add(1310720, hj), 786432);
        let aj: i64 = self.offset_opt(6554, options, 65536);
        let head_angle: i64 = fx_add(32768, aj);
        let dirx: i64 = fx_div(dx, len);
        let diry: i64 = fx_div(dy, len);
        let ca: i64 = cos_fx(head_angle);
        let sa: i64 = sin_fx(head_angle);
        let lx: i64 = fx_sub(end.x, fx_mul(head_len, fx_sub(fx_mul(dirx, ca), fx_mul(diry, sa))));
        let ly: i64 = fx_sub(end.y, fx_mul(head_len, fx_add(fx_mul(diry, ca), fx_mul(dirx, sa))));
        let rx: i64 = fx_sub(end.x, fx_mul(head_len, fx_add(fx_mul(dirx, ca), fx_mul(diry, sa))));
        let ry: i64 = fx_sub(end.y, fx_mul(head_len, fx_sub(fx_mul(diry, ca), fx_mul(dirx, sa))));
        let left_pt = Point { x: lx, y: ly };
        let right_pt = Point { x: rx, y: ry };

        let left_edge_pts: Vec<Point> = dense_dots(end, left_pt, options);
        let ghost lev = left_edge_pts@;
        if left_edge_pts.len() > 0 {
            let ghost lv = lines@;
            lines.push(left_edge_pts);
            proof {
                lemma_views_push(lv, left_edge_pts);
                assert(views(lines@) =~= seq![sv, lev]);
            }
        }
        let right_edge_pts: Vec<Point> = dense_dots(end, right_pt, options);
        let ghost rev = right_edge_pts@;
        let ghost before_r = views(lines@);
        if right_edge_pts.len() > 0 {
            let ghost lv = lines@;
            lines.push(right_edge_pts);
            proof {
                lemma_views_push(lv, right_edge_pts);
                assert(views(lines@) =~= before_r + seq![rev]);
            }
        }
        proof {
            reveal(crate::arrows::dotted_arrow_m);
            assert(views(lines@) =~= dotted_arrow_m(start, end, *options, seed, d0).0);
        }
        lines
    }
}

} // verus!
