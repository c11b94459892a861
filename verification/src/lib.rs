//! An orbit-zoom camera controller: raw pointer motion, scroll and
//! button/key state drive an orbiting, panning and zooming viewpoint
//! around a fixed target point.
//!
//! All quantities are fixed-point scalars counting thousandths, so the
//! control logic is exact integer arithmetic. The surrounding program
//! turns the symbolic orientation into a concrete rotation with its own
//! math library.

pub mod controller;
pub mod laws;
pub mod mode;
pub mod scalar;
pub mod settings;
pub mod vector;
