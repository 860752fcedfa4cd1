//! What each instruction does, stated on a mathematical model of the machine.
//!
//! A [`State`] is everything that an instruction can read or change: the
//! registers, the stack pointer, the program counter and the memory. Each
//! instruction is a function from a state to the state after it, or to the
//! error that stops it. An instruction that fails changes nothing.

use vstd::prelude::*;
use crate::decoder::{spec_decode, Instruction};
use crate::error::{CpuError, Direction, PairUse};
use crate::memory::{holds_dword, spec_dword, spec_dword_fault, spec_dword_set};
use crate::registers::{Registers, MEMORY_OPERAND};

verus! {

/// The machine as the instructions see it.
pub struct State {
    pub reg: Registers,
    /// Stack pointer: the address at which the next push writes.
    pub sp: u16,
    /// Program counter: the address of the next instruction.
    pub pc: int,
    pub mem: Seq<u8>,
}

/// An address as the error for an access outside the memory reports it.
pub open spec fn out_of_bounds(addr: int) -> CpuError {
    CpuError::OutOfBounds(addr as usize)
}

/// The 16 low bits of an address: what CALL keeps of its return address.
pub open spec fn spec_return_word(addr: int) -> u16 {
    (addr % 0x1_0000) as u16
}

impl State {
    /// This state with the program counter `n` bytes further.
    pub open spec fn advance(self, n: int) -> State {
        State { pc: self.pc + n, ..self }
    }

    /// The byte at `addr`.
    pub open spec fn load(self, addr: int) -> Result<u8, CpuError> {
        if 0 <= addr < self.mem.len() {
            Ok(self.mem[addr])
        } else {
            Err(out_of_bounds(addr))
        }
    }

    /// This state with `value` at `addr`.
    pub open spec fn store(self, addr: int, value: u8) -> Result<State, CpuError> {
        if 0 <= addr < self.mem.len() {
            Ok(State { mem: self.mem.update(addr, value), ..self })
        } else {
            Err(out_of_bounds(addr))
        }
    }

    /// The word at `addr`, low byte first.
    pub open spec fn load_word(self, addr: int) -> Result<u16, CpuError> {
        if holds_dword(self.mem, addr) {
            Ok(spec_dword(self.mem, addr))
        } else {
            Err(out_of_bounds(spec_dword_fault(self.mem, addr)))
        }
    }

    /// This state with the word `value` at `addr`, low byte first.
    pub open spec fn store_word(self, addr: int, value: u16) -> Result<State, CpuError> {
        if holds_dword(self.mem, addr) {
            Ok(State { mem: spec_dword_set(self.mem, addr, value), ..self })
        } else {
            Err(out_of_bounds(spec_dword_fault(self.mem, addr)))
        }
    }

    /// The byte that the register selector `r` stands for: a register, or for
    /// selector 6 the memory byte at the address in HL.
    pub open spec fn operand(self, r: usize) -> Result<u8, CpuError> {
        if r == MEMORY_OPERAND {
            self.load(self.reg.spec_hl() as int)
        } else {
            Ok(self.reg.spec_index(r as int))
        }
    }

    /// This state with `value` in what the register selector `r` stands for.
    pub open spec fn set_operand(self, r: usize, value: u8) -> Result<State, CpuError> {
        if r == MEMORY_OPERAND {
            self.store(self.reg.spec_hl() as int, value)
        } else {
            Ok(State { reg: self.reg.spec_store(r as int, value), ..self })
        }
    }

    /// Whether the condition with the 3-bit code `cond` holds of the flags.
    pub open spec fn condition(self, cond: u8) -> bool {
        if cond == 0 {
            !self.reg.spec_zero()
        } else if cond == 1 {
            self.reg.spec_zero()
        } else if cond == 2 {
            !self.reg.spec_carry()
        } else if cond == 3 {
            self.reg.spec_carry()
        } else if cond == 4 {
            !self.reg.spec_parity()
        } else if cond == 5 {
            self.reg.spec_parity()
        } else if cond == 6 {
            !self.reg.spec_sign()
        } else {
            self.reg.spec_sign()
        }
    }

    /// A word on the stack: written at the stack pointer, which then moves up
    /// by two.
    pub open spec fn pushed(self, value: u16) -> Result<State, CpuError> {
        match self.store_word(self.sp as int, value) {
            Ok(s) => Ok(State { sp: self.sp.wrapping_add(2), ..s }),
            Err(e) => Err(e),
        }
    }

    /// A word off the stack: the stack pointer moves down by two, and the
    /// word is read where it then points.
    pub open spec fn popped(self) -> Result<(u16, State), CpuError> {
        let sp = self.sp.wrapping_sub(2);
        match self.load_word(sp as int) {
            Ok(value) => Ok((value, State { sp, ..self })),
            Err(e) => Err(e),
        }
    }

    /// NOP: nothing but the program counter changes.
    pub open spec fn nop(self) -> State {
        self.advance(1)
    }

    /// JMP: the program counter is the address.
    pub open spec fn jmp(self, addr: usize) -> State {
        State { pc: addr as int, ..self }
    }

    /// Conditional jump: to the address if the condition holds, else past
    /// the three bytes of the instruction.
    pub open spec fn cond_jmp(self, cond: u8, addr: usize) -> State {
        if self.condition(cond) {
            State { pc: addr as int, ..self }
        } else {
            self.advance(3)
        }
    }

    /// CALL: the address of the next instruction goes on the stack, then the
    /// program counter is the address.
    pub open spec fn call(self, addr: usize) -> Result<State, CpuError> {
        match self.pushed(spec_return_word(self.pc + 3)) {
            Ok(s) => Ok(State { pc: addr as int, ..s }),
            Err(e) => Err(e),
        }
    }

    /// RET: the program counter is the word taken off the stack.
    pub open spec fn ret(self) -> Result<State, CpuError> {
        match self.popped() {
            Ok((value, s)) => Ok(State { pc: value as int, ..s }),
            Err(e) => Err(e),
        }
    }

    /// IN, once the input hook has answered `value`: the value is in A.
    pub open spec fn input(self, value: u8) -> State {
        State { reg: Registers { a: value, ..self.reg }, ..self }.advance(2)
    }

    /// OUT, once the output hook has been given A.
    pub open spec fn out(self) -> State {
        self.advance(2)
    }

    /// LDA: A is the byte at the address.
    pub open spec fn lda(self, d16: u16) -> Result<State, CpuError> {
        match self.load(d16 as int) {
            Ok(value) => Ok(State { reg: Registers { a: value, ..self.reg }, ..self }.advance(3)),
            Err(e) => Err(e),
        }
    }

    /// STA: the byte at the address is A.
    pub open spec fn sta(self, d16: u16) -> Result<State, CpuError> {
        match self.store(d16 as int, self.reg.a) {
            Ok(s) => Ok(s.advance(3)),
            Err(e) => Err(e),
        }
    }

    /// LHLD: HL is the word at the address.
    pub open spec fn lhld(self, d16: u16) -> Result<State, CpuError> {
        match self.load_word(d16 as int) {
            Ok(value) => Ok(State { reg: self.reg.spec_hl_set(value), ..self }.advance(3)),
            Err(e) => Err(e),
        }
    }

    /// SHLD: the word at the address is HL.
    pub open spec fn shld(self, d16: u16) -> Result<State, CpuError> {
        match self.store_word(d16 as int, self.reg.spec_hl()) {
            Ok(s) => Ok(s.advance(3)),
            Err(e) => Err(e),
        }
    }

    /// LDAX: A is the byte at the address in BC or DE.
    pub open spec fn ldax(self, rp: u8) -> Result<State, CpuError> {
        if rp >= 2 {
            Err(CpuError::InvalidRegisterPairSelector(rp, PairUse::Ldax))
        } else {
            let addr = if rp == 0 {
                self.reg.spec_bc()
            } else {
                self.reg.spec_de()
            };
            match self.load(addr as int) {
                Ok(value) => Ok(
                    State { reg: Registers { a: value, ..self.reg }, ..self }.advance(1),
                ),
                Err(e) => Err(e),
            }
        }
    }

    /// STAX: the byte at the address in BC or DE is A.
    pub open spec fn stax(self, rp: u8) -> Result<State, CpuError> {
        if rp >= 2 {
            Err(CpuError::InvalidRegisterPairSelector(rp, PairUse::Stax))
        } else {
            let addr = if rp == 0 {
                self.reg.spec_bc()
            } else {
                self.reg.spec_de()
            };
            match self.store(addr as int, self.reg.a) {
                Ok(s) => Ok(s.advance(1)),
                Err(e) => Err(e),
            }
        }
    }

    /// The 16-bit register that the pair selector `rp` names, SP for 3.
    pub open spec fn pair(self, rp: u8) -> u16 {
        if rp == 0 {
            self.reg.spec_bc()
        } else if rp == 1 {
            self.reg.spec_de()
        } else if rp == 2 {
            self.reg.spec_hl()
        } else {
            self.sp
        }
    }

    /// This state with `value` in the 16-bit register that `rp` names, SP
    /// for 3.
    pub open spec fn set_pair(self, rp: u8, value: u16) -> State {
        if rp == 0 {
            State { reg: self.reg.spec_bc_set(value), ..self }
        } else if rp == 1 {
            State { reg: self.reg.spec_de_set(value), ..self }
        } else if rp == 2 {
            State { reg: self.reg.spec_hl_set(value), ..self }
        } else {
            State { sp: value, ..self }
        }
    }

    /// LXI: the register pair, or SP, is the immediate word.
    pub open spec fn lxi(self, rp: u8, d16: u16) -> Result<State, CpuError> {
        if rp >= 4 {
            Err(CpuError::InvalidRegisterPairSelector(rp, PairUse::Lxi))
        } else {
            Ok(self.set_pair(rp, d16).advance(3))
        }
    }

    /// DCX: the register pair, or SP, is one less, 0 wrapping to 0xffff. No
    /// flag changes.
    pub open spec fn dcx(self, rp: u8) -> Result<State, CpuError> {
        if rp >= 4 {
            Err(CpuError::InvalidRegisterPairSelector(rp, PairUse::Dcx))
        } else {
            Ok(self.set_pair(rp, self.pair(rp).wrapping_sub(1)).advance(1))
        }
    }

    /// INX: the register pair, or SP, is one more, 0xffff wrapping to 0. No
    /// flag changes.
    pub open spec fn inx(self, rp: u8) -> Result<State, CpuError> {
        if rp >= 4 {
            Err(CpuError::InvalidRegisterPairSelector(rp, PairUse::Inx))
        } else {
            Ok(self.set_pair(rp, self.pair(rp).wrapping_add(1)).advance(1))
        }
    }

    /// This state with the flags of a comparison of A with `value`: sign, zero
    /// and parity of `A - value`, and carry where `value` is greater than A.
    pub open spec fn compared(self, value: u8) -> State {
        State {
            reg: self.reg.spec_result_flags_carry(
                self.reg.a.wrapping_sub(value),
                self.reg.a < value,
            ),
            ..self
        }
    }

    /// CMP: the flags say how A compares with the operand. A keeps its value.
    pub open spec fn cmp(self, r: usize) -> Result<State, CpuError> {
        match self.operand(r) {
            Ok(value) => Ok(self.compared(value).advance(1)),
            Err(e) => Err(e),
        }
    }

    /// CPI: the flags say how A compares with the immediate byte.
    pub open spec fn cpi(self, val: u8) -> State {
        self.compared(val).advance(2)
    }

    /// This state with `value` in the operand and with the sign, zero and
    /// parity of `value` in the flags. The carry keeps its value.
    pub open spec fn counted(self, r: usize, value: u8) -> Result<State, CpuError> {
        match self.set_operand(r, value) {
            Ok(s) => Ok(State { reg: s.reg.spec_result_flags(value), ..s }.advance(1)),
            Err(e) => Err(e),
        }
    }

    /// INR: the operand is one more, 0xff wrapping to 0.
    pub open spec fn inr(self, r: usize) -> Result<State, CpuError> {
        match self.operand(r) {
            Ok(value) => self.counted(r, value.wrapping_add(1)),
            Err(e) => Err(e),
        }
    }

    /// DCR: the operand is one less, 0 wrapping to 0xff.
    pub open spec fn dcr(self, r: usize) -> Result<State, CpuError> {
        match self.operand(r) {
            Ok(value) => self.counted(r, value.wrapping_sub(1)),
            Err(e) => Err(e),
        }
    }

    /// MOV: the operand `a` is the operand `b`.
    pub open spec fn mov(self, a: usize, b: usize) -> Result<State, CpuError> {
        match self.operand(b) {
            Ok(value) => match self.set_operand(a, value) {
                Ok(s) => Ok(s.advance(1)),
                Err(e) => Err(e),
            },
            Err(e) => Err(e),
        }
    }

    /// MVI: the operand `a` is the immediate byte.
    pub open spec fn mvi(self, a: usize, val: u8) -> Result<State, CpuError> {
        match self.set_operand(a, val) {
            Ok(s) => Ok(s.advance(2)),
            Err(e) => Err(e),
        }
    }

    /// SPHL: SP is HL.
    pub open spec fn sphl(self) -> State {
        State { sp: self.reg.spec_hl(), ..self }.advance(1)
    }

    /// PUSH: the register pair goes on the stack. SP cannot be pushed.
    pub open spec fn push(self, rp: u8) -> Result<State, CpuError> {
        if rp >= 3 {
            Err(CpuError::InvalidRegisterPairSelector(rp, PairUse::Push))
        } else {
            match self.pushed(self.pair(rp)) {
                Ok(s) => Ok(s.advance(1)),
                Err(e) => Err(e),
            }
        }
    }

    /// PUSH PSW: the flags and A go on the stack as one word.
    pub open spec fn push_psw(self) -> Result<State, CpuError> {
        match self.pushed(self.reg.spec_psw()) {
            Ok(s) => Ok(s.advance(1)),
            Err(e) => Err(e),
        }
    }

    /// POP: the register pair is the word taken off the stack. SP cannot be
    /// popped.
    pub open spec fn pop(self, rp: u8) -> Result<State, CpuError> {
        match self.popped() {
            Ok((value, s)) => if rp >= 3 {
                Err(CpuError::InvalidRegisterPairSelector(rp, PairUse::Pop))
            } else {
                Ok(s.set_pair(rp, value).advance(1))
            },
            Err(e) => Err(e),
        }
    }

    /// POP PSW: the flags and A are the word taken off the stack.
    pub open spec fn pop_psw(self) -> Result<State, CpuError> {
        match self.popped() {
            Ok((value, s)) => Ok(State { reg: s.reg.spec_set_psw(value), ..s }.advance(1)),
            Err(e) => Err(e),
        }
    }

    /// HALT: the processor stops for good.
    pub open spec fn halt(self) -> Result<State, CpuError> {
        Err(CpuError::Halted)
    }

    /// The effect of one decoded instruction on a machine without port hooks,
    /// on which IN and OUT fail.
    pub open spec fn execute(self, instruction: Instruction) -> Result<State, CpuError> {
        match instruction {
            Instruction::Nop => Ok(self.nop()),
            Instruction::Jmp(addr) => Ok(self.jmp(addr)),
            Instruction::CondJmp(cond, addr) => Ok(self.cond_jmp(cond, addr)),
            Instruction::Call(addr) => self.call(addr),
            Instruction::Ret => self.ret(),
            Instruction::In(_) => Err(CpuError::MissingPortHandler(Direction::In)),
            Instruction::Out(_) => Err(CpuError::MissingPortHandler(Direction::Out)),
            Instruction::Dcr(r) => self.dcr(r),
            Instruction::Inr(r) => self.inr(r),
            Instruction::Cmp(r) => self.cmp(r),
            Instruction::Cpi(val) => Ok(self.cpi(val)),
            Instruction::Mvi(a, val) => self.mvi(a, val),
            Instruction::Sphl => Ok(self.sphl()),
            Instruction::Lxi(rp, d16) => self.lxi(rp, d16),
            Instruction::Lda(d16) => self.lda(d16),
            Instruction::Sta(d16) => self.sta(d16),
            Instruction::Lhld(d16) => self.lhld(d16),
            Instruction::Shld(d16) => self.shld(d16),
            Instruction::Ldax(rp) => self.ldax(rp),
            Instruction::Stax(rp) => self.stax(rp),
            Instruction::Dcx(rp) => self.dcx(rp),
            Instruction::Inx(rp) => self.inx(rp),
            Instruction::PopPsw => self.pop_psw(),
            Instruction::Pop(rp) => self.pop(rp),
            Instruction::PushPsw => self.push_psw(),
            Instruction::Push(rp) => self.push(rp),
            Instruction::Halt => self.halt(),
            Instruction::Mov(a, b) => self.mov(a, b),
        }
    }

    /// One step of a machine without port hooks: the instruction at the
    /// program counter is decoded and carried out.
    pub open spec fn step(self) -> Result<State, CpuError> {
        match spec_decode(self.mem, self.pc) {
            Ok(instruction) => self.execute(instruction),
            Err(e) => Err(e),
        }
    }
}

} // verus!
