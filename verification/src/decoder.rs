//! Decoding: from the bytes at the program counter to an instruction.
//!
//! The opcode byte is held against an ordered list of bit patterns. Some of
//! them overlap, so the order is part of the instruction set: the opcodes with
//! one fixed encoding come first, then HALT, which would otherwise read as a
//! move from memory to memory, then the patterns that carry a register, a
//! register pair or a condition in some of their bits.

use vstd::prelude::*;
use vstd::slice::slice_subrange;
use crate::error::CpuError;
use crate::word::{pair_of, spec_pair_of};

verus! {

/// One decoded instruction: what it does, the selectors taken from the opcode
/// byte, and the immediate bytes that follow the opcode in memory.
///
/// A register selector is 3 bits wide: 0 to 5 for B, C, D, E, H, L, 6 for the
/// memory byte that HL points at, 7 for A. A register-pair selector is 2 bits
/// wide: 0 for BC, 1 for DE, 2 for HL, 3 for SP. A condition is 3 bits wide:
/// NZ, Z, NC, C, PO, PE, P, M from 0 to 7.
#[derive(Clone, Copy, Debug, PartialEq, Eq, Structural)]
pub enum Instruction {
    /// No operation.
    Nop,
    /// Jump to the address.
    Jmp(usize),
    /// Jump to the address if the condition holds.
    CondJmp(u8, usize),
    /// Call the subroutine at the address.
    Call(usize),
    /// Return from a subroutine.
    Ret,
    /// Read the port into A.
    In(u8),
    /// Write A to the port.
    Out(u8),
    /// Decrement the register.
    Dcr(usize),
    /// Increment the register.
    Inr(usize),
    /// Compare the register with A.
    Cmp(usize),
    /// Compare the immediate byte with A.
    Cpi(u8),
    /// Move the immediate byte to the register.
    Mvi(usize, u8),
    /// Set SP to HL.
    Sphl,
    /// Load the register pair with the immediate word.
    Lxi(u8, u16),
    /// Load A from the address.
    Lda(u16),
    /// Store A at the address.
    Sta(u16),
    /// Load HL from the word at the address.
    Lhld(u16),
    /// Store HL as a word at the address.
    Shld(u16),
    /// Load A from the address held in the register pair.
    Ldax(u8),
    /// Store A at the address held in the register pair.
    Stax(u8),
    /// Decrement the register pair.
    Dcx(u8),
    /// Increment the register pair.
    Inx(u8),
    /// Pop the flags and A from the stack.
    PopPsw,
    /// Pop the register pair from the stack.
    Pop(u8),
    /// Push the flags and A on the stack.
    PushPsw,
    /// Push the register pair on the stack.
    Push(u8),
    /// Halt the processor.
    Halt,
    /// Move the second register to the first.
    Mov(usize, usize),
}

impl Instruction {
    /// How many bytes follow the opcode byte of this instruction.
    pub open spec fn spec_operands(self) -> nat {
        match self {
            Instruction::Jmp(_)
            | Instruction::CondJmp(_, _)
            | Instruction::Call(_)
            | Instruction::Lxi(_, _)
            | Instruction::Lda(_)
            | Instruction::Sta(_)
            | Instruction::Lhld(_)
            | Instruction::Shld(_) => 2,
            Instruction::In(_) | Instruction::Out(_) | Instruction::Cpi(_) | Instruction::Mvi(_, _) => 1,
            _ => 0,
        }
    }

    /// Whether every selector of this instruction fits its bit field and every
    /// address fits in 16 bits.
    pub open spec fn wf(self) -> bool {
        match self {
            Instruction::Jmp(addr) | Instruction::Call(addr) => addr <= 0xffff,
            Instruction::CondJmp(cond, addr) => cond < 8 && addr <= 0xffff,
            Instruction::Dcr(r) | Instruction::Inr(r) | Instruction::Cmp(r) | Instruction::Mvi(
                r,
                _,
            ) => r < 8,
            Instruction::Mov(dst, src) => dst < 8 && src < 8,
            Instruction::Lxi(rp, _)
            | Instruction::Ldax(rp)
            | Instruction::Stax(rp)
            | Instruction::Dcx(rp)
            | Instruction::Inx(rp)
            | Instruction::Pop(rp)
            | Instruction::Push(rp) => rp < 4,
            _ => true,
        }
    }

    /// How many bytes follow the opcode byte of this instruction: 0, 1 or 2.
    pub fn operands(&self) -> (n: usize)
        ensures
            n == self.spec_operands(),
    {
        match self {
            Instruction::Jmp(_)
            | Instruction::CondJmp(_, _)
            | Instruction::Call(_)
            | Instruction::Lxi(_, _)
            | Instruction::Lda(_)
            | Instruction::Sta(_)
            | Instruction::Lhld(_)
            | Instruction::Shld(_) => 2,
            Instruction::In(_) | Instruction::Out(_) | Instruction::Cpi(_) | Instruction::Mvi(_, _) => 1,
            _ => 0,
        }
    }
}

/// The 3-bit field in bits 5..3 of an opcode: a register or a condition.
pub open spec fn spec_upper_field(op: u8) -> u8 {
    (op >> 3) & 7
}

/// The 3-bit field in bits 2..0 of an opcode: a register.
pub open spec fn spec_lower_field(op: u8) -> u8 {
    op & 7
}

/// The register selector in bits 5..3 of an opcode.
pub open spec fn spec_upper_register(op: u8) -> usize {
    spec_upper_field(op) as usize
}

/// The register selector in bits 2..0 of an opcode.
pub open spec fn spec_lower_register(op: u8) -> usize {
    spec_lower_field(op) as usize
}

/// The 2-bit field in bits 5..4 of an opcode: a register pair.
pub open spec fn spec_pair_field(op: u8) -> u8 {
    (op >> 4) & 3
}

/// The 16-bit immediate made of the two bytes after the opcode: the first is
/// its low byte, the second its high byte.
pub open spec fn spec_d16(b1: u8, b2: u8) -> u16 {
    spec_pair_of(b2, b1)
}

/// The address made of the two bytes after the opcode, low byte first.
pub open spec fn spec_addr(b1: u8, b2: u8) -> usize {
    spec_pair_of(b2, b1) as usize
}

/// The instruction that the opcode byte `op` encodes, with `b1` and `b2` the
/// two bytes after it, or `None` where `op` matches no pattern. The patterns
/// are tried from the top: the first that matches decides.
pub open spec fn spec_instruction(op: u8, b1: u8, b2: u8) -> Option<Instruction> {
    if op == 0x00 {
        Some(Instruction::Nop)
    } else if op == 0xc3 {
        Some(Instruction::Jmp(spec_addr(b1, b2)))
    } else if op == 0xcd {
        Some(Instruction::Call(spec_addr(b1, b2)))
    } else if op == 0xc9 {
        Some(Instruction::Ret)
    } else if op & 0xc7 == 0xc2 {
        Some(Instruction::CondJmp(spec_upper_field(op), spec_addr(b1, b2)))
    } else if op == 0xdb {
        Some(Instruction::In(b1))
    } else if op == 0xd3 {
        Some(Instruction::Out(b1))
    } else if op == 0xf9 {
        Some(Instruction::Sphl)
    } else if op == 0x3a {
        Some(Instruction::Lda(spec_d16(b1, b2)))
    } else if op == 0x32 {
        Some(Instruction::Sta(spec_d16(b1, b2)))
    } else if op == 0x2a {
        Some(Instruction::Lhld(spec_d16(b1, b2)))
    } else if op == 0x22 {
        Some(Instruction::Shld(spec_d16(b1, b2)))
    } else if op == 0x76 {
        Some(Instruction::Halt)
    } else if op & 0xc0 == 0x40 {
        Some(Instruction::Mov(spec_upper_register(op), spec_lower_register(op)))
    } else if op & 0xc7 == 0x06 {
        Some(Instruction::Mvi(spec_upper_register(op), b1))
    } else if op & 0xc7 == 0x05 {
        Some(Instruction::Dcr(spec_upper_register(op)))
    } else if op & 0xc7 == 0x04 {
        Some(Instruction::Inr(spec_upper_register(op)))
    } else if op & 0xf8 == 0xb8 {
        Some(Instruction::Cmp(spec_lower_register(op)))
    } else if op == 0xfe {
        Some(Instruction::Cpi(b1))
    } else if op & 0xcf == 0x01 {
        Some(Instruction::Lxi(spec_pair_field(op), spec_d16(b1, b2)))
    } else if op & 0xcf == 0x0a {
        Some(Instruction::Ldax(spec_pair_field(op)))
    } else if op & 0xcf == 0x02 {
        Some(Instruction::Stax(spec_pair_field(op)))
    } else if op & 0xcf == 0x0b {
        Some(Instruction::Dcx(spec_pair_field(op)))
    } else if op & 0xcf == 0x03 {
        Some(Instruction::Inx(spec_pair_field(op)))
    } else if op == 0xf1 {
        Some(Instruction::PopPsw)
    } else if op & 0xcf == 0xc1 {
        Some(Instruction::Pop(spec_pair_field(op)))
    } else if op == 0xf5 {
        Some(Instruction::PushPsw)
    } else if op & 0xcf == 0xc5 {
        Some(Instruction::Push(spec_pair_field(op)))
    } else {
        None
    }
}

/// The instruction that starts at index `at` of `bytes`, or the reason why
/// there is none: `at` lies outside `bytes`, the opcode byte matches no
/// pattern, or `bytes` ends before the last immediate byte.
pub open spec fn spec_decode(bytes: Seq<u8>, at: int) -> Result<Instruction, CpuError> {
    if !(0 <= at < bytes.len()) {
        Err(CpuError::OutOfBounds(at as usize))
    } else {
        match spec_instruction(bytes[at], bytes[at + 1], bytes[at + 2]) {
            None => Err(CpuError::UnimplementedOpcode(bytes[at])),
            Some(instruction) => if at + instruction.spec_operands() < bytes.len() {
                Ok(instruction)
            } else {
                Err(CpuError::OutOfBounds(bytes.len() as usize))
            },
        }
    }
}

/// The selectors taken from an opcode byte fit their bit fields.
pub proof fn lemma_fields_fit(op: u8)
    by (bit_vector)
    ensures
        spec_upper_field(op) < 8,
        spec_lower_field(op) < 8,
        spec_pair_field(op) < 4,
{
}

/// Gets the 8-bit port address: the byte after the opcode.
pub fn p(opcode: &[u8]) -> (port: Option<u8>)
    ensures
        opcode@.len() >= 2 ==> port == Some(opcode@[1]),
        opcode@.len() < 2 ==> port is None,
{
    if opcode.len() < 2 {
        None
    } else {
        Some(opcode[1])
    }
}

/// Merges bytes 2 and 3 of the instruction into a 16-bit number; byte 3 is
/// the high byte.
pub fn d16(opcode: &[u8]) -> (value: Option<u16>)
    ensures
        opcode@.len() >= 3 ==> value == Some(spec_d16(opcode@[1], opcode@[2])),
        opcode@.len() < 3 ==> value is None,
{
    if opcode.len() < 3 {
        None
    } else {
        Some(pair_of(opcode[2], opcode[1]))
    }
}

/// Merges bytes 2 and 3 of the instruction into an address; byte 3 is the
/// high byte.
pub fn addr(opcode: &[u8]) -> (value: Option<usize>)
    ensures
        opcode@.len() >= 3 ==> value == Some(spec_addr(opcode@[1], opcode@[2])),
        opcode@.len() < 3 ==> value is None,
{
    match d16(opcode) {
        Some(word) => Some(word as usize),
        None => None,
    }
}

/// A 3-bit field of the opcode as the register selector that it is.
fn selector(field: u8) -> (r: usize)
    ensures
        r == field,
{
    field as usize
}

/// An operand that was read, or the address at which the bytes ended.
fn need<T>(operand: Option<T>, end: usize) -> (r: Result<T, CpuError>)
    ensures
        r == match operand {
            Some(value) => Ok::<T, CpuError>(value),
            None => Err::<T, CpuError>(CpuError::OutOfBounds(end)),
        },
{
    match operand {
        Some(value) => Ok(value),
        None => Err(CpuError::OutOfBounds(end)),
    }
}

/// Decodes the instruction that starts at index `at` of `bytes`. Nothing but
/// the opcode byte and the immediate bytes of that instruction is looked at.
pub fn decode(bytes: &[u8], at: usize) -> (r: Result<Instruction, CpuError>)
    ensures
        r == spec_decode(bytes@, at as int),
        r matches Ok(instruction) ==> instruction.wf(),
{
    let end = bytes.len();
    if at >= end {
        return Err(CpuError::OutOfBounds(at));
    }
    let opcode = slice_subrange(bytes, at, end);
    let op = opcode[0];
    proof {
        lemma_fields_fit(op);
    }
    let cond = (op >> 3) & 7;
    let upper = selector(cond);
    let lower = selector(op & 7);
    let pair = (op >> 4) & 3;
    if op == 0x00 {
        Ok(Instruction::Nop)
    } else if op == 0xc3 {
        Ok(Instruction::Jmp(need(addr(opcode), end)?))
    } else if op == 0xcd {
        Ok(Instruction::Call(need(addr(opcode), end)?))
    } else if op == 0xc9 {
        Ok(Instruction::Ret)
    } else if op & 0xc7 == 0xc2 {
        Ok(Instruction::CondJmp(cond, need(addr(opcode), end)?))
    } else if op == 0xdb {
        Ok(Instruction::In(need(p(opcode), end)?))
    } else if op == 0xd3 {
        Ok(Instruction::Out(need(p(opcode), end)?))
    } else if op == 0xf9 {
        Ok(Instruction::Sphl)
    } else if op == 0x3a {
        Ok(Instruction::Lda(need(d16(opcode), end)?))
    } else if op == 0x32 {
        Ok(Instruction::Sta(need(d16(opcode), end)?))
    } else if op == 0x2a {
        Ok(Instruction::Lhld(need(d16(opcode), end)?))
    } else if op == 0x22 {
        Ok(Instruction::Shld(need(d16(opcode), end)?))
    } else if op == 0x76 {
        Ok(Instruction::Halt)
    } else if op & 0xc0 == 0x40 {
        Ok(Instruction::Mov(upper, lower))
    } else if op & 0xc7 == 0x06 {
        Ok(Instruction::Mvi(upper, need(p(opcode), end)?))
    } else if op & 0xc7 == 0x05 {
        Ok(Instruction::Dcr(upper))
    } else if op & 0xc7 == 0x04 {
        Ok(Instruction::Inr(upper))
    } else if op & 0xf8 == 0xb8 {
        Ok(Instruction::Cmp(lower))
    } else if op == 0xfe {
        Ok(Instruction::Cpi(need(p(opcode), end)?))
    } else if op & 0xcf == 0x01 {
        Ok(Instruction::Lxi(pair, need(d16(opcode), end)?))
    } else if op & 0xcf == 0x0a {
        Ok(Instruction::Ldax(pair))
    } else if op & 0xcf == 0x02 {
        Ok(Instruction::Stax(pair))
    } else if op & 0xcf == 0x0b {
        Ok(Instruction::Dcx(pair))
    } else if op & 0xcf == 0x03 {
        Ok(Instruction::Inx(pair))
    } else if op == 0xf1 {
        Ok(Instruction::PopPsw)
    } else if op & 0xcf == 0xc1 {
        Ok(Instruction::Pop(pair))
    } else if op == 0xf5 {
        Ok(Instruction::PushPsw)
    } else if op & 0xcf == 0xc5 {
        Ok(Instruction::Push(pair))
    } else {
        Err(CpuError::UnimplementedOpcode(op))
    }
}

} // verus!
