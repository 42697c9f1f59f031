//! Instruction-execution core of an 8-bit game-console processor.
//!
//! The crate models the processor's fetch, decode and execute cycle: a
//! bit-packed flags register, a register file with 16-bit pair views, a flat
//! byte-addressable memory bus, the opcode decoder and the execution engine.
//! Every function carries a contract over a mathematical model of the machine
//! state, and Verus proves that the code meets it.

pub mod cpu;
pub mod fault;
pub mod flags_register;
pub mod instructions;
pub mod memorybus;
pub mod names;
pub mod registers;
pub mod state;
pub mod word;
