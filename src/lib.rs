//! A CHIP-8 interpreter core: the machine state, the instruction decoder and
//! the fetch-decode-execute engine, each specified over a mathematical model.

pub mod state;
pub mod instruction;
pub mod engine;
pub mod laws;
