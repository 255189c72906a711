//! A verified core of an NMOS 6502 emulator: a flat 64 KiB memory, the
//! register file with its status flags, an opcode decoder, and a
//! cycle-counted interpreter for the documented instruction set.
//!
//! The architectural semantics are stated once, as a total specification-level
//! transition function over an abstract machine state, and the executable
//! interpreter is proved to follow it step for step.

pub mod computer;
pub mod decode;
pub mod flags;
pub mod hexfmt;
pub mod laws;
pub mod state;
