//! The mesh triangulator: thick-quad strips for solid polylines and
//! pill-capsule fans for dotted point rows.
//!
//! Both converters are pure: they draw no randomness and their results
//! equal spec-level models. The index lists always come in multiples
//! of three, and every index stays below the vertex count produced in
//! the same call.

use vstd::prelude::*;
use crate::fixed::{
    Fx, fxadd, fxsub, fxneg, fxmul, fxdiv, fxlen, fx_of,
    fx_add, fx_sub, fx_neg, fx_mul, fx_div, fx_len, fx_from,
};
use crate::rough::{Point, pt};
use crate::trig::{sinq, cosq, atan2q, sin_fx, cos_fx, atan2_fx};

verus! {

/// An RGBA color in Q16.16 channels, passed through unchanged.
#[derive(Clone, Copy, PartialEq, Eq, Structural, Debug)]
pub struct RgbaColor {
    pub r: Fx,
    pub g: Fx,
    pub b: Fx,
    pub a: Fx,
}

/// One renderable vertex: a position and a color.
#[derive(Clone, Copy, PartialEq, Eq, Structural, Debug)]
pub struct Vertex {
    pub position: Point,
    pub color: RgbaColor,
}

/// The perpendicular half-width offset of a segment (its normal
/// scaled to half the stroke width).
pub open spec fn seg_normal(dx: int, dy: int, len: int, w: int) -> (int, int) {
    (fxmul(fxmul(fxdiv(fxneg(dy), len), w), 32768), fxmul(fxmul(fxdiv(dx, len), w), 32768))
}

/// The four vertices of one segment's quad: both endpoints offset to
/// either side of the stroke.
pub open spec fn seg_quad(p1: Point, p2: Point, c: RgbaColor, nx: int, ny: int) -> Seq<Vertex> {
    seq![
        Vertex { position: pt(fxsub(p1.x as int, nx), fxsub(p1.y as int, ny)), color: c },
        Vertex { position: pt(fxadd(p1.x as int, nx), fxadd(p1.y as int, ny)), color: c },
        Vertex { position: pt(fxadd(p2.x as int, nx), fxadd(p2.y as int, ny)), color: c },
        Vertex { position: pt(fxsub(p2.x as int, nx), fxsub(p2.y as int, ny)), color: c },
    ]
}

/// The six indices of one segment's two triangles.
pub open spec fn seg_indices(io: int) -> Seq<u16> {
    seq![
        io as u16,
        (io + 1) as u16,
        (io + 2) as u16,
        io as u16,
        (io + 2) as u16,
        (io + 3) as u16,
    ]
}

/// The solid mesh from segment `i` on: one quad and two triangles per
/// consecutive point pair, skipping degenerate (zero-length) pairs.
pub open spec fn solid_mesh_m(points: Seq<Point>, c: RgbaColor, w: int, i: int, io: int) -> (
    Seq<Vertex>,
    Seq<u16>,
)
    decreases points.len() - i,
{
    if i < 0 || i >= points.len() - 1 {
        (Seq::empty(), Seq::empty())
    } else {
        let p1 = points[i];
        let p2 = points[i + 1];
        let dx = fxsub(p2.x as int, p1.x as int);
        let dy = fxsub(p2.y as int, p1.y as int);
        let len = fxlen(dx, dy);
        if len > 0 {
            let n = seg_normal(dx, dy, len, w);
            let rest = solid_mesh_m(points, c, w, i + 1, io + 4);
            (seg_quad(p1, p2, c, n.0, n.1) + rest.0, seg_indices(io) + rest.1)
        } else {
            solid_mesh_m(points, c, w, i + 1, io)
        }
    }
}

/// How many segments from `i` on have positive length.
pub open spec fn live_segs(points: Seq<Point>, i: int) -> int
    decreases points.len() - i,
{
    if i < 0 || i >= points.len() - 1 {
        0
    } else {
        let p1 = points[i];
        let p2 = points[i + 1];
        let len = fxlen(fxsub(p2.x as int, p1.x as int), fxsub(p2.y as int, p1.y as int));
        (if len > 0 { 1int } else { 0int }) + live_segs(points, i + 1)
    }
}

/// Triangulation validity: the solid mesh yields four vertices and
/// six indices per live segment, and every index lies below the index
/// base plus the number of vertices produced.
pub proof fn lemma_solid_mesh_props(points: Seq<Point>, c: RgbaColor, w: int, i: int, io: int)
    requires
        0 <= io,
        io + 4 * live_segs(points, i) <= 65536,
    ensures
        solid_mesh_m(points, c, w, i, io).0.len() == 4 * live_segs(points, i),
        solid_mesh_m(points, c, w, i, io).1.len() == 6 * live_segs(points, i),
        forall|k: int|
            0 <= k < solid_mesh_m(points, c, w, i, io).1.len() ==> (
            #[trigger] solid_mesh_m(points, c, w, i, io).1[k]) < io + 4 * live_segs(points, i),
    decreases points.len() - i,
{
    if i < 0 || i >= points.len() - 1 {
    } else {
        let p1 = points[i];
        let p2 = points[i + 1];
        let len = fxlen(fxsub(p2.x as int, p1.x as int), fxsub(p2.y as int, p1.y as int));
        if len > 0 {
            lemma_solid_mesh_props(points, c, w, i + 1, io + 4);
        } else {
            lemma_solid_mesh_props(points, c, w, i + 1, io);
        }
    }
}

/// When no consecutive points coincide, every segment is live.
pub proof fn lemma_live_segs_all(points: Seq<Point>, i: int)
    requires
        0 <= i <= points.len(),
        forall|k: int|
            0 <= k < points.len() - 1 ==> fxlen(
                fxsub(points[k + 1].x as int, #[trigger] points[k].x as int),
                fxsub(points[k + 1].y as int, points[k].y as int),
            ) > 0,
    ensures
        points.len() >= 1 ==> live_segs(points, i) == if i <= points.len() - 1 {
            points.len() - 1 - i
        } else {
            0int
        },
    decreases points.len() - i,
{
    if 0 <= i && i < points.len() - 1 {
        lemma_live_segs_all(points, i + 1);
    }
}

/// The rotation applied to the pill at dot `i`: the direction to the
/// single neighbor at the ends, the averaged directions inside.
pub open spec fn dot_rotation(points: Seq<Point>, i: int) -> int {
    if points.len() > 1 {
        if i == 0 {
            atan2q(
                fxsub(points[1].y as int, points[0].y as int),
                fxsub(points[1].x as int, points[0].x as int),
            )
        } else if i == points.len() - 1 {
            atan2q(
                fxsub(points[i].y as int, points[i - 1].y as int),
                fxsub(points[i].x as int, points[i - 1].x as int),
            )
        } else {
            let a1 = atan2q(
                fxsub(points[i].y as int, points[i - 1].y as int),
                fxsub(points[i].x as int, points[i - 1].x as int),
            );
            let a2 = atan2q(
                fxsub(points[i + 1].y as int, points[i].y as int),
                fxsub(points[i + 1].x as int, points[i].x as int),
            );
            fxmul(fxadd(a1, a2), 32768)
        }
    } else {
        0
    }
}

/// One of the twelve perimeter vertices of a pill: six around the
/// front cap, then six around the back cap, rotated into place.
pub open spec fn pill_vertex(dot: Point, c: RgbaColor, w: int, rot: int, j: int) -> Vertex {
    let pill_radius = fxmul(w, 32768);
    let half_length = fxmul(fxmul(w, 131072), 32768);
    let cr = cosq(rot);
    let sr = sinq(rot);
    let jj = if j < 6 { j } else { j - 6 };
    let a0 = fxmul(fxdiv(fx_of(jj), fx_of(5)), 205887);
    let a = if j < 6 { fxsub(a0, 102943) } else { fxadd(a0, 102943) };
    let base_x = if j < 6 { half_length } else { fxneg(half_length) };
    let lx = fxadd(base_x, fxmul(pill_radius, cosq(a)));
    let ly = fxmul(pill_radius, sinq(a));
    Vertex {
        position: pt(
            fxsub(fxadd(dot.x as int, fxmul(lx, cr)), fxmul(ly, sr)),
            fxadd(fxadd(dot.y as int, fxmul(lx, sr)), fxmul(ly, cr)),
        ),
        color: c,
    }
}

/// The fan indices of one pill from spoke `j` on: both windings of
/// each triangle, so the facing is correct for either rotation sign.
pub open spec fn pill_indices(io: int, j: int) -> Seq<u16>
    decreases 12 - j,
{
    if j < 0 || j >= 12 {
        Seq::empty()
    } else {
        let cur = io + 1 + j;
        let nxt = io + 1 + ((j + 1) % 12);
        seq![
            io as u16,
            cur as u16,
            nxt as u16,
            io as u16,
            nxt as u16,
            cur as u16,
        ] + pill_indices(io, j + 1)
    }
}

/// The dotted mesh from dot `i` on: thirteen vertices (a center and
/// twelve perimeter points) and twelve double-wound triangles per dot.
pub open spec fn dotted_mesh_m(points: Seq<Point>, c: RgbaColor, w: int, i: int, io: int) -> (
    Seq<Vertex>,
    Seq<u16>,
)
    decreases points.len() - i,
{
    if i < 0 || i >= points.len() {
        (Seq::empty(), Seq::empty())
    } else {
        let rot = dot_rotation(points, i);
        let verts = seq![Vertex { position: points[i], color: c }] + Seq::new(
            12,
            |j: int| pill_vertex(points[i], c, w, rot, j),
        );
        let rest = dotted_mesh_m(points, c, w, i + 1, io + 13);
        (verts + rest.0, pill_indices(io, 0) + rest.1)
    }
}

/// Fan-index validity for one pill: every index lies between the pill
/// base and thirteen places above it.
pub proof fn lemma_pill_indices_props(io: int, j: int)
    requires
        0 <= io,
        0 <= j,
        io + 13 <= 65536,
    ensures
        pill_indices(io, j).len() == if j < 12 { 6 * (12 - j) } else { 0int },
        forall|k: int|
            0 <= k < pill_indices(io, j).len() ==> io <= (#[trigger] pill_indices(io, j)[k])
                < io + 13,
    decreases 12 - j,
{
    if 0 <= j && j < 12 {
        lemma_pill_indices_props(io, j + 1);
    }
}

/// Triangulation validity for the dotted mesh: thirteen vertices and
/// seventy-two indices per dot, every index below the base plus the
/// vertices produced.
pub proof fn lemma_dotted_mesh_props(points: Seq<Point>, c: RgbaColor, w: int, i: int, io: int)
    requires
        0 <= io,
        0 <= i,
        io + 13 * (points.len() - i) <= 65536,
    ensures
        dotted_mesh_m(points, c, w, i, io).0.len() == 13 * (if i <= points.len() {
            points.len() - i
        } else {
            0int
        }),
        dotted_mesh_m(points, c, w, i, io).1.len() == 72 * (if i <= points.len() {
            points.len() - i
        } else {
            0int
        }),
        forall|k: int|
            0 <= k < dotted_mesh_m(points, c, w, i, io).1.len() ==> (
            #[trigger] dotted_mesh_m(points, c, w, i, io).1[k]) < io + 13 * (points.len() - i),
    decreases points.len() - i,
{
    if 0 <= i && i < points.len() {
        lemma_pill_indices_props(io, 0);
        lemma_dotted_mesh_props(points, c, w, i + 1, io + 13);
    }
}

/// Live segments are never more than the remaining point pairs.
pub proof fn lemma_live_segs_range(points: Seq<Point>, i: int)
    requires
        0 <= i,
    ensures
        0 <= live_segs(points, i),
        live_segs(points, i) <= (if i < points.len() - 1 {
            points.len() - 1 - i
        } else {
            0int
        }),
    decreases points.len() - i,
{
    if 0 <= i && i < points.len() - 1 {
        lemma_live_segs_range(points, i + 1);
    }
}

impl crate::rough::RoughGenerator {
    /// Turn a solid polyline into a thick-quad mesh: four vertices and
    /// two triangles per non-degenerate segment, and every index below
    /// the vertex count of the same call.
    pub fn points_to_vertices(&self, points: &Vec<Point>, color: RgbaColor, width: Fx) -> (r: (
        Vec<Vertex>,
        Vec<u16>,
    ))
        requires
            points@.len() <= 16384,
        ensures
            r.0@ == solid_mesh_m(points@, color, width as int, 0, 0).0,
            r.1@ == solid_mesh_m(points@, color, width as int, 0, 0).1,
            r.0@.len() == 4 * live_segs(points@, 0),
            r.1@.len() == 6 * live_segs(points@, 0),
            forall|k: int| 0 <= k < r.1@.len() ==> (r.1@[k] as int) < r.0@.len(),
    {
        proof {
            lemma_live_segs_range(points@, 0);
            lemma_solid_mesh_props(points@, color, width as int, 0, 0);
        }
        let ghost full = solid_mesh_m(points@, color, width as int, 0, 0);
        let mut vertices: Vec<Vertex> = Vec::new();
        let mut indices: Vec<u16> = Vec::new();
        let mut index_offset: u16 = 0;
        let mut i: usize = 0;
        while i + 1 < points.len()
            invariant
                points@.len() <= 16384,
                i <= points@.len(),
                vertices@.len() == index_offset as int,
                index_offset as int + 4 * live_segs(points@, i as int) <= 65532,
                vertices@ + solid_mesh_m(points@, color, width as int, i as int, index_offset as int).0
                    == full.0,
                indices@ + solid_mesh_m(points@, color, width as int, i as int, index_offset as int).1
                    == full.1,
            decreases points@.len() - i,
        {
            let p1: Point = points[i];
            let p2: Point = points[i + 1];
            let dx: i64 = fx_sub(p2.x, p1.x);
            let dy: i64 = fx_sub(p2.y, p1.y);
            let len: i64 = fx_len(dx, dy);
            proof {
                lemma_live_segs_range(points@, i as int + 1);
            }
            if len > 0 {
                let ghost vold = vertices@;
                let ghost iold = indices@;
                let ghost io = index_offset as int;
                let nx: i64 = fx_mul(fx_mul(fx_div(fx_neg(dy), len), width), 32768);
                let ny: i64 = fx_mul(fx_mul(fx_div(dx, len), width), 32768);
                vertices.push(Vertex {
                    position: Point { x: fx_sub(p1.x, nx), y: fx_sub(p1.y, ny) },
                    color: color,
                });
                vertices.push(Vertex {
                    position: Point { x: fx_add(p1.x, nx), y: fx_add(p1.y, ny) },
                    color: color,
                });
                vertices.push(Vertex {
                    position: Point { x: fx_add(p2.x, nx), y: fx_add(p2.y, ny) },
                    color: color,
                });
                vertices.push(Vertex {
                    position: Point { x: fx_sub(p2.x, nx), y: fx_sub(p2.y, ny) },
                    color: color,
                });
                indices.push(index_offset);
                indices.push(index_offset + 1);
                indices.push(index_offset + 2);
                indices.push(index_offset);
                indices.push(index_offset + 2);
                indices.push(index_offset + 3);
                index_offset = index_offset + 4;
                proof {
                    let dxs = fxsub(p2.x as int, p1.x as int);
                    let dys = fxsub(p2.y as int, p1.y as int);
                    let n = seg_normal(dxs, dys, len as int, width as int);
                    let rest = solid_mesh_m(points@, color, width as int, i as int + 1, io + 4);
                    assert(vertices@ =~= (vold + seg_quad(p1, p2, color, n.0, n.1)));
                    assert((vold + seg_quad(p1, p2, color, n.0, n.1)) + rest.0 =~= vold + (
                    seg_quad(p1, p2, color, n.0, n.1) + rest.0));
                    assert(indices@ =~= (iold + seg_indices(io)));
                    assert((iold + seg_indices(io)) + rest.1 =~= iold + (seg_indices(io) + rest.1));
                }
            }
            i = i + 1;
        }
        proof {
            assert(solid_mesh_m(points@, color, width as int, i as int, index_offset as int).0
                =~= Seq::<Vertex>::empty());
            assert(solid_mesh_m(points@, color, width as int, i as int, index_offset as int).1
                =~= Seq::<u16>::empty());
            assert(vertices@ + Seq::<Vertex>::empty() =~= vertices@);
            assert(indices@ + Seq::<u16>::empty() =~= indices@);
        }
        (vertices, indices)
    }

    /// Turn a row of dot centers into pill-capsule meshes: a center
    /// vertex, twelve perimeter vertices and twelve double-wound fan
    /// triangles per dot, and every index below the vertex count.
    #[verifier::rlimit(60)]
    pub fn dotted_points_to_vertices(&self, points: &Vec<Point>, color: RgbaColor, width: Fx) -> (r:
        (Vec<Vertex>, Vec<u16>))
        requires
            points@.len() <= 5041,
        ensures
            r.0@ == dotted_mesh_m(points@, color, width as int, 0, 0).0,
            r.1@ == dotted_mesh_m(points@, color, width as int, 0, 0).1,
            r.0@.len() == 13 * points@.len(),
            r.1@.len() == 72 * points@.len(),
            forall|k: int| 0 <= k < r.1@.len() ==> (r.1@[k] as int) < r.0@.len(),
    {
        proof {
            lemma_dotted_mesh_props(points@, color, width as int, 0, 0);
        }
        let ghost full = dotted_mesh_m(points@, color, width as int, 0, 0);
        let mut vertices: Vec<Vertex> = Vec::new();
        let mut indices: Vec<u16> = Vec::new();
        let mut index_offset: u16 = 0;
        let pill_radius: i64 = fx_mul(width, 32768);
        let half_length: i64 = fx_mul(fx_mul(width, 131072), 32768);
        let mut i: usize = 0;
        while i < points.len()
            invariant
                points@.len() <= 5041,
                i <= points@.len(),
                pill_radius as int == fxmul(width as int, 32768),
                half_length as int == fxmul(fxmul(width as int, 131072), 32768),
                vertices@.len() == index_offset as int,
                index_offset as int == 13 * i,
                vertices@ + dotted_mesh_m(points@, color, width as int, i as int, index_offset as int).0
                    == full.0,
                indices@ + dotted_mesh_m(points@, color, width as int, i as int, index_offset as int).1
                    == full.1,
            decreases points@.len() - i,
        {
            let dot_center: Point = points[i];
            let rotation: i64 = if points.len() > 1 {
                if i == 0 {
                    let next: Point = points[1];
                    atan2_fx(fx_sub(next.y, dot_center.y), fx_sub(next.x, dot_center.x))
                } else if i == points.len() - 1 {
                    let prev: Point = points[i - 1];
                    atan2_fx(fx_sub(dot_center.y, prev.y), fx_sub(dot_center.x, prev.x))
                } else {
                    let prev: Point = points[i - 1];
                    let next: Point = points[i + 1];
                    let angle1: i64 = atan2_fx(fx_sub(dot_center.y, prev.y), fx_sub(dot_center.x, prev.x));
                    let angle2: i64 = atan2_fx(fx_sub(next.y, dot_center.y), fx_sub(next.x, dot_center.x));
                    fx_mul(fx_add(angle1, angle2), 32768)
                }
            } else {
                0
            };
            proof {
                assert(rotation as int == dot_rotation(points@, i as int));
            }
            let cos_rot: i64 = cos_fx(rotation);
            let sin_rot: i64 = sin_fx(rotation);

            let ghost vbase = vertices@;
            let ghost ibase = indices@;
            let ghost io = index_offset as int;
            let center_idx: u16 = index_offset;
            vertices.push(Vertex { position: dot_center, color: color });
            index_offset = index_offset + 1;

            let mut j: u64 = 0;
            while j < 6
                invariant
                    j <= 6,
                    pill_radius as int == fxmul(width as int, 32768),
                    half_length as int == fxmul(fxmul(width as int, 131072), 32768),
                    cos_rot as int == cosq(rotation as int),
                    sin_rot as int == sinq(rotation as int),
                    rotation as int == dot_rotation(points@, i as int),
                    i < points@.len(),
                    dot_center == points@[i as int],
                    vertices@ == vbase + seq![Vertex { position: dot_center, color: color }]
                        + Seq::new(
                        j as nat,
                        |jj: int| pill_vertex(
                            points@[i as int],
                            color,
                            width as int,
                            dot_rotation(points@, i as int),
                            jj,
                        ),
                    ),
                decreases 6 - j,
            {
                let t: i64 = fx_div(fx_from(j as i64), fx_from(5));
                let a: i64 = fx_sub(fx_mul(t, 205887), 102943);
                let local_x: i64 = fx_add(half_length, fx_mul(pill_radius, cos_fx(a)));
                let local_y: i64 = fx_mul(pill_radius, sin_fx(a));
                let x: i64 = fx_sub(fx_add(dot_center.x, fx_mul(local_x, cos_rot)), fx_mul(local_y, sin_rot));
                let y: i64 = fx_add(fx_add(dot_center.y, fx_mul(local_x, sin_rot)), fx_mul(local_y, cos_rot));
                vertices.push(Vertex { position: Point { x, y }, color: color });
                proof {
                    assert(vertices@ =~= vbase + seq![Vertex { position: dot_center, color: color }]
                        + Seq::new(
                        (j + 1) as nat,
                        |jj: int| pill_vertex(
                            points@[i as int],
                            color,
                            width as int,
                            dot_rotation(points@, i as int),
                            jj,
                        ),
                    ));
                }
                j = j + 1;
            }

            let mut j2: u64 = 0;
            while j2 < 6
                invariant
                    j2 <= 6,
                    pill_radius as int == fxmul(width as int, 32768),
                    half_length as int == fxmul(fxmul(width as int, 131072), 32768),
                    cos_rot as int == cosq(rotation as int),
                    sin_rot as int == sinq(rotation as int),
                    rotation as int == dot_rotation(points@, i as int),
                    i < points@.len(),
                    dot_center == points@[i as int],
                    vertices@ == vbase + seq![Vertex { position: dot_center, color: color }]
                        + Seq::new(
                        (6 + j2) as nat,
                        |jj: int| pill_vertex(
                            points@[i as int],
                            color,
                            width as int,
                            dot_rotation(points@, i as int),
                            jj,
                        ),
                    ),
                decreases 6 - j2,
            {
                let t: i64 = fx_div(fx_from(j2 as i64), fx_from(5));
                let a: i64 = fx_add(fx_mul(t, 205887), 102943);
                let local_x: i64 = fx_add(fx_neg(half_length), fx_mul(pill_radius, cos_fx(a)));
                let local_y: i64 = fx_mul(pill_radius, sin_fx(a));
                let x: i64 = fx_sub(fx_add(dot_center.x, fx_mul(local_x, cos_rot)), fx_mul(local_y, sin_rot));
                let y: i64 = fx_add(fx_add(dot_center.y, fx_mul(local_x, sin_rot)), fx_mul(local_y, cos_rot));
                vertices.push(Vertex { position: Point { x, y }, color: color });
                proof {
                    assert(vertices@ =~= vbase + seq![Vertex { position: dot_center, color: color }]
                        + Seq::new(
                        (7 + j2) as nat,
                        |jj: int| pill_vertex(
                            points@[i as int],
                            color,
                            width as int,
                            dot_rotation(points@, i as int),
                            jj,
                        ),
                    ));
                }
                j2 = j2 + 1;
            }

            let mut j3: u16 = 0;
            proof {
                assert(indices@ + pill_indices(io, 0) =~= ibase + pill_indices(io, 0));
            }
            while j3 < 12
                invariant
                    j3 <= 12,
                    13 * i + 13 <= 65536,
                    io == 13 * i,
                    index_offset as int == io + 1,
                    center_idx as int == io,
                    indices@ + pill_indices(io, j3 as int) == ibase + pill_indices(io, 0),
                decreases 12 - j3,
            {
                let current: u16 = index_offset + j3;
                let next: u16 = index_offset + ((j3 + 1) % 12);
                let ghost iold = indices@;
                indices.push(center_idx);
                indices.push(current);
                indices.push(next);
                indices.push(center_idx);
                indices.push(next);
                indices.push(current);
                proof {
                    let cur_s = io + 1 + j3 as int;
                    let nxt_s = io + 1 + ((j3 as int + 1) % 12);
                    let head = seq![
                        io as u16,
                        cur_s as u16,
                        nxt_s as u16,
                        io as u16,
                        nxt_s as u16,
                        cur_s as u16,
                    ];
                    let rest = pill_indices(io, j3 as int + 1);
                    assert(indices@ =~= iold + head);
                    assert((iold + head) + rest =~= iold + (head + rest));
                }
                j3 = j3 + 1;
            }
            index_offset = index_offset + 12;
            proof {
                assert(pill_indices(io, 12) =~= Seq::<u16>::empty());
                assert(indices@ + Seq::<u16>::empty() =~= indices@);
                let verts_i = seq![Vertex { position: points@[i as int], color: color }] + Seq::new(
                    12,
                    |jj: int| pill_vertex(
                        points@[i as int],
                        color,
                        width as int,
                        dot_rotation(points@, i as int),
                        jj,
                    ),
                );
                let rest = dotted_mesh_m(points@, color, width as int, i as int + 1, io + 13);
                assert(vertices@ =~= vbase + verts_i);
                assert((vbase + verts_i) + rest.0 =~= vbase + (verts_i + rest.0));
                assert((ibase + pill_indices(io, 0)) + rest.1 =~= ibase + (pill_indices(io, 0)
                    + rest.1));
            }
            i = i + 1;
        }
        proof {
            assert(dotted_mesh_m(points@, color, width as int, i as int, index_offset as int).0
                =~= Seq::<Vertex>::empty());
            assert(dotted_mesh_m(points@, color, width as int, i as int, index_offset as int).1
                =~= Seq::<u16>::empty());
            assert(vertices@ + Seq::<Vertex>::empty() =~= vertices@);
            assert(indices@ + Seq::<u16>::empty() =~= indices@);
        }
        (vertices, indices)
    }
}

} // verus!
