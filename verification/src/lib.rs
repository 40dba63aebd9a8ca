//! A Motorola 6809 CPU emulator core.
//!
//! Provides a [`Cpu`] that executes 6809 machine code against any memory
//! system implementing the [`Bus`] trait, with cycle counting, bit-exact
//! condition-code semantics, and the full interrupt and wait-state machine.

pub mod addressing;
pub mod alu;
pub mod bus;
pub mod cpu;
pub mod laws;
pub mod opcodes;
pub mod registers;
pub mod words;

pub use bus::{Bus, BusSignals};
pub use cpu::Cpu;
pub use registers::{ConditionCodes, Registers};
