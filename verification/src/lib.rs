//! A 64-bit RISC-V hart interpreter for the base integer instruction set.
//!
//! The machine state (program counter, integer registers and a memory bus) is
//! laid out over a pluggable storage backend; the instruction semantics are
//! functions over that state whose contracts give the exact register and
//! program-counter effects.
//!
//! Beside the interpreter, [`upgrade`] holds the check that authorises a
//! kernel upgrade.

pub mod interpreter;
pub mod machine_state;
pub mod state_backend;
pub mod upgrade;
