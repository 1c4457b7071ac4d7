//! An 8-bit register machine: a two-pass assembler that turns mnemonic source
//! text into a fixed binary instruction encoding, and a fetch-decode-execute
//! engine that runs the encoded program over a flat 65536-byte memory.
//!
//! The assembler and the execution engine agree on the instruction table in
//! [`instructions`]: 1 byte for `RET` and `HLT`, 3 bytes (opcode, two operand
//! bytes) for everything else. Every public operation carries a contract that
//! pins its result down to a specification-level function of its inputs.

pub mod assembler;
pub mod cpu;
pub mod instructions;
pub mod laws;
pub mod memory;
pub mod text;
