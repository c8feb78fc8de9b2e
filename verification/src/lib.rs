//! A two-pass assembler for the RV32I base instruction set.
//!
//! The assembler turns a program text (newline-separated lines of labels,
//! instructions and comments) into the ordered sequence of 32-bit machine
//! words that encodes it, or into a structured error for the first fault
//! found.  Every stage — tokenization, label resolution, pseudo-instruction
//! expansion, operand resolution and bit-field packing — is specified and
//! verified down to the exact word values produced.

pub mod assembler;
pub mod encode;
pub mod errors;
pub mod imm;
pub mod labels;
pub mod laws;
pub mod pseudo;
pub mod tables;
pub mod text;
