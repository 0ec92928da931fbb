//! A streaming JSON flattener: a table-driven pushdown automaton consumes a
//! byte stream of JSON text strictly left to right and emits one
//! `path = value` line per scalar found, in document order, reporting the
//! 1-based line and column of the first error.
//!
//! - `category` classifies each input byte for the transition table.
//! - `table` holds the automaton: states, semantic actions, transitions.
//! - `value` defines the value stack's entries and the error kinds.
//! - `codec` covers hex digits, UTF-8 encoding and validation, decimals.
//! - `emit` renders scalars and paths.
//! - `machine` is the mathematical model the engine is proved equal to.
//! - `engine` is the executable parser: `engine::parse` is the entry point.
//! - `laws` proves the parser's stated properties over the model.

pub mod category;
pub mod codec;
pub mod emit;
pub mod engine;
pub mod laws;
pub mod machine;
pub mod table;
pub mod value;
