//! A virtual machine for the Synacor 16-bit register/stack architecture.
//!
//! The machine works on 16-bit words. Memory is one sequence of words that
//! holds both code and data, there are eight registers and an unbounded
//! stack. Every operand of an instruction is a word that is either a literal
//! or the name of a register; [`opcode::check_number`] tells them apart.
//!
//! The machine itself performs no input or output. An `out` instruction
//! hands the byte to write back to the caller, and an `in` instruction that
//! finds no pending input asks the caller for a line; see [`vm::HostAction`].
//!
//! - [`opcode`]: words, instructions and the decoder.
//! - [`machine`]: the machine as a mathematical object, the model that all
//!   contracts speak of.
//! - [`vm`]: the executable machine.
//! - [`laws`]: what holds of every machine.
//! - [`image`]: from the bytes of a stored program to its words.
//! - [`dump`]: the state of a machine written out as text.

pub mod dump;
pub mod image;
pub mod laws;
pub mod machine;
pub mod opcode;
pub mod vm;
