//! Sampling of 2-D objective surfaces and gradient descent over them.
//!
//! The library is generic over the value type: the arithmetic of an
//! objective is handed in as closures, and the library owns the layout
//! of the sampled grid, the checks on its inputs and the control of the
//! descent.

pub mod descent;
pub mod error;
pub mod function;
pub mod surface;
