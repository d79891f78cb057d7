//! A single on/off toggle exposed as a readable, writable and notifying
//! attribute of a peripheral, and also driven from a line-oriented console.
//!
//! The library holds the decisions: the state cell, the reaction to each
//! inbound peripheral event, the reaction to each console line, and the
//! start-up sequence. Running the peripheral stack, the console and the
//! timers is left to the caller, which hands events in and carries out the
//! actions that come back.
pub mod state;
pub mod text;
pub mod dispatch;
pub mod console;
pub mod startup;
pub mod service;

pub use state::StateCell;
