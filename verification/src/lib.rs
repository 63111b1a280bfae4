//! An emulator core for the LC-3, a 16-bit word-addressed teaching computer.
//!
//! The crate holds the instruction execution engine and nothing else: the
//! decoder, the effect of each opcode on registers and memory, the rule that
//! sets the condition flags, memory with its two keyboard registers, and the
//! trap routines. It performs no input or output of its own. The host hands
//! typed characters to a [`console::Console`] and takes written characters
//! from it, so every function here is a function of plain values and its
//! contract says exactly what it computes.
pub mod boot;
pub mod console;
pub mod decoder;
pub mod flags;
pub mod memory;
pub mod memory_mapped_registers;
pub mod ops;
pub mod outcome;
pub mod registers;
pub mod state;
pub mod traps;
