//! An interpreter for the Intel 8080 instruction set.
//!
//! A [`Cpu`] owns a flat [`Memory`], a [`Registers`] file, a stack pointer, a
//! program counter and two optional port hooks. Each call of [`Cpu::cycle`]
//! fetches the instruction at the program counter, decodes it and applies its
//! effect. Every failure is reported as a [`CpuError`]; nothing here panics.

pub mod cpu;
pub mod decoder;
pub mod decompiler;
pub mod error;
pub mod flags;
pub mod laws;
pub mod memory;
pub mod ports;
pub mod registers;
pub mod semantics;
pub mod word;

pub use cpu::Cpu;
pub use decoder::Instruction;
pub use error::{CpuError, Direction, PairUse};
pub use flags::{Flags, FlagsName};
pub use memory::Memory;
pub use ports::{PortIn, PortOut, Snapshot};
pub use registers::Registers;
pub use word::{pair_of, split};
