//! Geometry and decision logic of an 8x8 checkerboard scene.
//!
//! Board coordinates are measured in grid units: one unit is the side of one
//! square, which is 2/8 of the normalized [-1, 1] viewport. A coordinate `u`
//! in grid units is the normalized coordinate `u * 0.25`, so the viewport is
//! the grid range [-4, 4] on each axis.

pub mod board;
pub mod input;
pub mod shader;
pub mod tiling;
