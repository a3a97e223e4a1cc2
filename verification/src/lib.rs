//! Polaris: the bookkeeping of a deterministic 2D n-body simulator.
//!
//! The floating-point physics (integration, gravity, orbit fitting) lives
//! with the application; this crate holds the state containers, the layout
//! of the prediction window and the interaction state machine.

pub mod acceleration;
pub mod analysis;
pub mod objects;
pub mod orbit;
pub mod predictor;
pub mod render;
pub mod state;
pub mod utils;
