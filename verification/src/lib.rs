//! A two-dimensional stable-fluids solver over a grid of cells, generic in
//! the numbers it computes with.
//!
//! A [`FlowBox`] owns the velocity and the colour density of a box of
//! fluid. A time step diffuses the velocity, makes it free of divergence,
//! carries it along itself, and then diffuses the colour and carries it
//! along the flow, with walls that mirror the velocity and hold the colour
//! in.
//!
//! The crate decides everything about a step that is decided in whole
//! numbers: where a cell lives in the flat buffers, which cells meet in
//! which formula, how the walls are rewritten, and in which order the
//! stages run. Cell values are of a caller-chosen type `T`; the arithmetic
//! on them is asked of the caller, one elementary operation at a time.
pub mod advect;
pub mod arithmetic;
pub mod boundary;
pub mod density;
pub mod flow_box;
pub mod grid;
pub mod laws;
pub mod mesh;
pub mod parallel;
pub mod params;
pub mod project;
pub mod relax;
pub mod stencil;

pub use advect::Split;
pub use arithmetic::Operation;
pub use boundary::{Bound, CornerRule, EdgeRule};
pub use density::Density;
pub use flow_box::FlowBox;
pub use params::FluidParams;
pub use stencil::Neighbors;
