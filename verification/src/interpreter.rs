//! Instruction semantics.

pub mod rv32i;
