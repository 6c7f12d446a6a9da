//! The state machine of a bonding-curve token launcher: a global configuration,
//! one curve per mint, and the instructions that create, trade on and drain a curve.
pub mod state;
pub mod program;
pub mod laws;
