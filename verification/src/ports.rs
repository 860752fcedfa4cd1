//! The port hooks: how IN and OUT reach the world outside the machine.

use vstd::prelude::*;
use crate::memory::Memory;
use crate::registers::Registers;

verus! {

/// What a port hook may look at while it serves an instruction: the
/// registers, the stack pointer, the program counter and the memory, as they
/// are when the instruction is reached.
pub struct Snapshot<'a> {
    pub reg: &'a Registers,
    pub sp: u16,
    pub pc: usize,
    pub ram: &'a Memory,
}

/// The input hook. It is called when an IN instruction is executed, and the
/// byte it returns is placed in A.
pub trait PortIn {
    fn read(&mut self, cpu: &Snapshot<'_>, port: u8) -> u8;
}

/// The output hook. It is called when an OUT instruction is executed, with
/// the port and the content of A.
pub trait PortOut {
    fn write(&mut self, cpu: &Snapshot<'_>, port: u8, value: u8);
}

} // verus!
