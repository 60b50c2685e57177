//! A verified interpreter for a minimal eight-instruction tape language.
//!
//! A source text is reduced to a [`program::Program`] (unrecognized
//! characters are comments and are dropped), and a
//! [`virtual_machine::VirtualMachine`] executes it against a sparse,
//! conceptually unbounded memory tape, consuming a byte stream for input
//! and producing a byte stream for output.

pub mod instruction;
pub mod program;
pub mod virtual_machine;
