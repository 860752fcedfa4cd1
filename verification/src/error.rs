//! The conditions that end an instruction without effect.

use vstd::prelude::*;

verus! {

/// Which of the two port hooks an instruction asked for.
#[derive(Clone, Copy, Debug, PartialEq, Eq, Structural)]
pub enum Direction {
    /// The input hook, used by IN.
    In,
    /// The output hook, used by OUT.
    Out,
}

/// The instruction that was given a register-pair selector it does not accept.
#[derive(Clone, Copy, Debug, PartialEq, Eq, Structural)]
pub enum PairUse {
    Ldax,
    Stax,
    Lxi,
    Dcx,
    Inx,
    Push,
    Pop,
}

/// Why an instruction could not be carried out. None of these is recoverable
/// by the processor itself: the caller decides what to do with the machine.
#[derive(Clone, Copy, Debug, PartialEq, Eq, Structural)]
pub enum CpuError {
    /// The opcode byte matches no known instruction pattern.
    UnimplementedOpcode(u8),
    /// A register-pair selector that the instruction does not accept.
    InvalidRegisterPairSelector(u8, PairUse),
    /// A read or write at this address, which lies outside the memory.
    OutOfBounds(usize),
    /// IN or OUT was executed and no hook is registered for that direction.
    MissingPortHandler(Direction),
    /// HALT was executed.
    Halted,
}

} // verus!
