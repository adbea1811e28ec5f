//! A register-based bytecode virtual machine and a Markdown line-length
//! linter, verified with Verus.
//!
//! The machine ([`vm`]) executes a loaded [`loader::BytecodeModule`] against
//! a fixed register file. What each instruction does is defined in
//! [`vm::semantics`] as a function from one machine to the next; the engine
//! in [`vm::engine`] is proved to compute it, and [`vm::laws`] proves what
//! follows from it. The machine does no floating-point arithmetic and no
//! printing of its own: it hands both to its host (see
//! [`runtime::float_unit`] and [`vm::engine::VM::take_output`]).
//!
//! The linter ([`lint`]) finds and rewraps the lines of a Markdown text that
//! are too long.
//!
//! Every public function states its behaviour over the mathematical models
//! defined next to the data types.

pub mod constants;
pub mod errors;
pub mod float_bits;
pub mod instructions;
pub mod lint;
pub mod loader;
pub mod names;
pub mod runtime;
pub mod text;
pub mod values;
pub mod vm;
