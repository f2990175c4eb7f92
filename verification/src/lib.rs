//! Driver for a microcontroller's internal flash memory controller.
//!
//! The controller is reached through a memory-mapped register block; this
//! crate models that block as a value with named bit fields and verifies the
//! operation state machine that sequences the unlock handshake, the
//! page-erase and word-program commands, the bounded busy-wait, and the
//! classification of each outcome.

pub mod flash;
pub mod laws;
pub mod regs;
