//! The machine: register file, state and execution engine.

pub mod registers;
pub mod state;
pub mod semantics;
pub mod engine;
pub mod laws;
