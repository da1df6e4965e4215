//! Planning core for an endless animation of nested, rotating dot spheres.
//!
//! Everything the animation decides in whole numbers lives here and is
//! verified: the detail tier chosen from the viewport, the tessellation of
//! each sphere and how many dots it has, the animation clock, the turn of
//! each sphere about the three axes at a given time, and the list of drawing
//! steps that make up one frame. Trigonometry, matrix products and the
//! drawing surface belong to the host that runs the frames.

pub mod viewport;
pub mod rotation;
pub mod sets;
pub mod frame;
