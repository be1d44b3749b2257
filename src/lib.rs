//! Verified core of a small WebGL renderer: shader program bookkeeping,
//! vertex buffer layouts, uniform matrix layout and the per-frame decisions.
//! The graphics driver itself is driven by the caller, which hands the
//! driver's answers to these functions and performs the commands they return.

pub mod buffer;
pub mod error;
pub mod linking;
pub mod matrix;
pub mod program;
pub mod renderer;
pub mod slots;
