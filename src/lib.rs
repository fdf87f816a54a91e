//! Verified building blocks of a SIMPLE pressure-velocity solver for the
//! two-dimensional lid-driven cavity: the structured grid and its cell
//! numbering, the stencil links, the residual history and the outer driver's
//! schedule and state machine.

pub mod grid;
pub mod links;
pub mod residuals;
pub mod driver;
pub mod state;
