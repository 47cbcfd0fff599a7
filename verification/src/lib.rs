//! Script-to-geometry reactive bridge for an interactive parametric plotter.
//!
//! A small embedded script declares interactive controls (sliders, checkboxes,
//! color pickers) in its `setup` entry point and emits drawable primitives
//! (parametric curves, vectors with arrow heads, polygons) in its `draw` entry
//! point.  This crate holds the verified core of that host: the control
//! registry, the geometry sampler, the diagnostics log and the evaluation
//! state machine that decides when `setup` and `draw` must run again.
//!
//! All geometry is carried in fixed-point micro-units (one unit of plot space
//! is `num::SCALE` micro-units), so every computation here is exact integer
//! arithmetic.  The unverified host shell converts between script numbers and
//! micro-units at the boundary and owns the script engine itself.

pub mod bridge;
pub mod color;
pub mod controls;
pub mod diag;
pub mod geom;
pub mod num;
pub mod sampler;
