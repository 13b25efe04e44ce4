//! Control logic of a tone generator: transport state machine, output
//! configuration negotiation, and the persisted panel state.

pub mod config;
pub mod synth;
pub mod ui_state;
