//! Reconciliation engine of an auto-lock controller for a terminal
//! multiplexer: it follows the focused pane, samples the command that runs
//! there, and decides when the host's input mode is to be locked or released.

pub mod config;
pub mod controller;
pub mod focus;
pub mod laws;
pub mod mode;
pub mod names;
pub mod sampler;
pub mod search;
pub mod text;
pub mod timer;
