//! A procedural hand-drawn stroke synthesis engine.
//!
//! The library turns idealized shape descriptions (a line segment, a
//! rectangle, a diamond, an ellipse, an arrow) into wobbly, sketch-like
//! polylines and triangulates those polylines into renderable meshes.
//! All geometry is carried in Q16.16 fixed-point coordinates (an `i64`
//! holds the value multiplied by 65536), saturating at +/- 2^47, so that
//! every computation is exact, total and verified.

pub mod arrows;
pub mod drawing;
pub mod fixed;
pub mod laws;
pub mod lines;
pub mod mesh;
pub mod msdf;
pub mod rough;
pub mod shapes;
pub mod trig;

pub use arrows::ArrowHead;
pub use drawing::{BoxState, ShapeSpec, Tool, UserInputState};
pub use fixed::Fx;
pub use mesh::{RgbaColor, Vertex};
pub use msdf::generate_msdf;
pub use rough::{Point, RoughGenerator, RoughOptions};
