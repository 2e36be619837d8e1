//! Drawing-level types: the tool palette, text-box states, the user
//! input states, and the tagged shape variants with the single
//! synthesis entry point that dispatches to the shape synthesizers.

use vstd::prelude::*;
use crate::fixed::Fx;
use crate::rough::{Point, RoughOptions, RoughGenerator};
use crate::arrows::{ArrowHead, arrow_m, arrow_solid_m, dotted_arrow_m};
use crate::lines::{line_m, line_m_draws, views};
use crate::shapes::{corners_shape_m, corners_shape_draws, rect_corners, diamond_corners, ellipse_m};

verus! {

/// The drawing tools a host application can offer.
#[derive(Clone, Copy, PartialEq, Eq, Structural, Debug)]
pub enum Tool {
    Pen,
    Rectangle,
    Circle,
    Arrow,
    Text,
    Eraser,
    Select,
}

/// The lifecycle states of a text box.
#[derive(Clone, Copy, PartialEq, Eq, Structural, Debug)]
pub enum BoxState {
    Idle,
    Selected,
    Editing,
}

/// The states of the pointer-driven input loop.
#[derive(Clone, Copy, PartialEq, Eq, Structural, Debug)]
pub enum UserInputState {
    Idle,
    Panning,
    Drawing,
    Dragging,
}

/// One idealized shape, carrying its own immutable geometric
/// parameters; the synthesis entry point pattern-matches the variant.
#[derive(Clone, Copy, PartialEq, Eq, Structural, Debug)]
pub enum ShapeSpec {
    Line { start: Point, end: Point },
    Rectangle { position: Point, size: Point },
    Diamond { position: Point, size: Point },
    Ellipse { center: Point, width: Fx, height: Fx },
    Arrow { start: Point, end: Point },
    ArrowSolidHead { start: Point, end: Point },
    DottedArrow { start: Point, end: Point },
}

/// The polylines the synthesis entry point yields for one shape.
pub open spec fn shape_lines_m(shape: ShapeSpec, o: RoughOptions, seed: u64, d0: nat) -> Seq<
    Seq<Point>,
> {
    match shape {
        ShapeSpec::Line { start, end } => seq![line_m(start, end, o, seed, d0)],
        ShapeSpec::Rectangle { position, size } => corners_shape_m(
            rect_corners(position, size),
            o,
            seed,
            d0,
        ),
        ShapeSpec::Diamond { position, size } => corners_shape_m(
            diamond_corners(position, size),
            o,
            seed,
            d0,
        ),
        ShapeSpec::Ellipse { center, width, height } => ellipse_m(
            center,
            width as int,
            height as int,
            o,
            seed,
            d0,
        ).0,
        ShapeSpec::Arrow { start, end } => arrow_m(start, end, o, seed, d0).0,
        ShapeSpec::ArrowSolidHead { start, end } => arrow_solid_m(start, end, o, seed, d0).0,
        ShapeSpec::DottedArrow { start, end } => dotted_arrow_m(start, end, o, seed, d0).0,
    }
}

/// The solid arrowhead the entry point yields: present exactly for the
/// solid-head arrow variant on a shaft of positive length.
pub open spec fn shape_head_m(shape: ShapeSpec, o: RoughOptions, seed: u64, d0: nat) -> Option<
    ArrowHead,
> {
    match shape {
        ShapeSpec::ArrowSolidHead { start, end } => arrow_solid_m(start, end, o, seed, d0).1,
        _ => None,
    }
}

/// Draws the entry point consumes for one shape.
pub open spec fn shape_draws_m(shape: ShapeSpec, o: RoughOptions, seed: u64, d0: nat) -> nat {
    match shape {
        ShapeSpec::Line { start, end } => line_m_draws(start, end, o),
        ShapeSpec::Rectangle { position, size } => corners_shape_draws(
            rect_corners(position, size),
            o,
            seed,
            d0,
        ),
        ShapeSpec::Diamond { position, size } => corners_shape_draws(
            diamond_corners(position, size),
            o,
            seed,
            d0,
        ),
        ShapeSpec::Ellipse { center, width, height } => ellipse_m(
            center,
            width as int,
            height as int,
            o,
            seed,
            d0,
        ).1,
        ShapeSpec::Arrow { start, end } => arrow_m(start, end, o, seed, d0).1,
        ShapeSpec::ArrowSolidHead { start, end } => arrow_solid_m(start, end, o, seed, d0).2,
        ShapeSpec::DottedArrow { start, end } => dotted_arrow_m(start, end, o, seed, d0).1,
    }
}

impl RoughGenerator {
    /// Synthesize one shape: dispatch the variant to its synthesizer
    /// and return the polylines, plus the exact solid arrowhead where
    /// the variant has one.
    pub fn synthesize(&mut self, shape: &ShapeSpec, options: &RoughOptions) -> (r: (
        Vec<Vec<Point>>,
        Option<ArrowHead>,
    ))
        ensures
            views(r.0@) == shape_lines_m(*shape, *options, old(self).seed_val(), old(self).draw_count()),
            r.1 == shape_head_m(*shape, *options, old(self).seed_val(), old(self).draw_count()),
            final(self).seed_val() == old(self).seed_val(),
            final(self).draw_count() == old(self).draw_count() + shape_draws_m(
                *shape,
                *options,
                old(self).seed_val(),
                old(self).draw_count(),
            ),
    {
        match shape {
            ShapeSpec::Line { start, end } => {
                let line: Vec<Point> = self.rough_line(*start, *end, options);
                let ghost lv = line@;
                let mut lines: Vec<Vec<Point>> = Vec::new();
                lines.push(line);
                proof {
                    assert(views(lines@) =~= seq![lv]);
                }
                (lines, None)
            },
            ShapeSpec::Rectangle { position, size } => {
                (self.rough_rectangle(*position, *size, options), None)
            },
            ShapeSpec::Diamond { position, size } => {
                (self.rough_diamond(*position, *size, options), None)
            },
            ShapeSpec::Ellipse { center, width, height } => {
                (self.rough_ellipse(*center, *width, *height, options), None)
            },
            ShapeSpec::Arrow { start, end } => (self.rough_arrow(*start, *end, options), None),
            ShapeSpec::ArrowSolidHead { start, end } => {
                self.rough_arrow_with_solid_head(*start, *end, options)
            },
            ShapeSpec::DottedArrow { start, end } => {
                (self.rough_dotted_arrow(*start, *end, options), None)
            },
        }
    }
}

} // verus!
