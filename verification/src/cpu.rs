//! The processor: it owns the memory, the registers, the stack pointer, the
//! program counter and the port hooks, and runs one instruction per cycle.

use vstd::prelude::*;
use crate::decoder::{decode, spec_decode, Instruction};
use crate::error::{CpuError, Direction, PairUse};
use crate::memory::{spec_load, Memory};
use crate::ports::{PortIn, PortOut, Snapshot};
use crate::registers::flags::{lemma_update_flags_named, Flags};
use crate::registers::{Registers, MEMORY_OPERAND};
use crate::semantics::State;

mod dcr;
mod halt;
mod lhld;
mod mov;
mod mvi;
mod nop;
mod pop;
mod push;
mod sphl;

verus! {

/// An 8080 processor together with the memory it runs on.
pub struct Cpu {
    /// User hook to read from a port. Called when an IN instruction is run.
    pub port_in: Option<Box<dyn PortIn>>,
    /// User hook to write to a port. Called when an OUT instruction is run.
    pub port_out: Option<Box<dyn PortOut>>,
    pub reg: Registers,
    /// Stack pointer.
    pub sp: u16,
    /// Program counter.
    pub pc: usize,
    pub ram: Memory,
}

impl View for Cpu {
    type V = State;

    open spec fn view(&self) -> State {
        State { reg: self.reg, sp: self.sp, pc: self.pc as int, mem: self.ram@ }
    }
}

impl Cpu {
    /// Whether this machine has the port hooks of `other`, untouched.
    pub open spec fn same_ports(&self, other: &Cpu) -> bool {
        self.port_in == other.port_in && self.port_out == other.port_out
    }

    /// Whether this machine and the result `r` are what an instruction that
    /// was run on the machine `before` leaves behind, given what the
    /// instruction prescribes: after a success the machine is in the new
    /// state, after a failure it is as it was and `r` is the error. The port
    /// hooks are untouched either way.
    pub open spec fn outcome_is(
        &self,
        before: &Cpu,
        r: Result<(), CpuError>,
        expected: Result<State, CpuError>,
    ) -> bool {
        &&& self.same_ports(before)
        &&& match expected {
            Ok(after) => r == Ok::<(), CpuError>(()) && self@ == after,
            Err(e) => r == Err::<(), CpuError>(e) && self@ == before@,
        }
    }

    /// A machine with `from` as its memory, all registers zero, no port
    /// hooks, and the program counter and the stack pointer at address 0.
    pub fn from_raw(from: Vec<u8>) -> (cpu: Self)
        ensures
            cpu@ == (State { reg: Registers::spec_new(), sp: 0, pc: 0, mem: from@ }),
            cpu.port_in is None,
            cpu.port_out is None,
    {
        Self {
            port_in: None,
            port_out: None,
            reg: Registers::new(),
            sp: 0,
            pc: 0,
            ram: Memory::from_raw(from),
        }
    }

    /// A machine with the program `bytes` loaded at `starting_addr` and
    /// zeroes below it, all registers zero, no port hooks, the program
    /// counter at `starting_addr` and the stack pointer at address 0. The
    /// end of the program has to be an address that the machine can hold.
    pub fn load(bytes: Vec<u8>, starting_addr: usize) -> (cpu: Self)
        requires
            starting_addr + bytes@.len() <= usize::MAX,
        ensures
            cpu@ == (State {
                reg: Registers::spec_new(),
                sp: 0,
                pc: starting_addr as int,
                mem: spec_load(bytes@, starting_addr as nat),
            }),
            cpu.port_in is None,
            cpu.port_out is None,
    {
        Self {
            port_in: None,
            port_out: None,
            reg: Registers::new(),
            sp: 0,
            pc: starting_addr,
            ram: Memory::load(bytes, starting_addr),
        }
    }

    /// Runs the instruction at the program counter: fetches and decodes it,
    /// then applies its effect to the registers, the memory, the stack
    /// pointer and the program counter.
    ///
    /// An instruction that cannot be carried out leaves the machine as it
    /// was and is reported as the error. IN and OUT call the port hook that
    /// is registered for them and fail where there is none; after IN, A
    /// holds what the input hook answered.
    pub fn cycle(&mut self) -> (res: Result<(), CpuError>)
        ensures
            ({
                let decoded = spec_decode(old(self)@.mem, old(self)@.pc);
                if decoded matches Ok(Instruction::In(_)) && old(self).port_in is Some {
                    &&& res == Ok::<(), CpuError>(())
                    &&& final(self)@ == old(self)@.input(final(self).reg.a)
                    &&& final(self).port_in is Some
                    &&& final(self).port_out == old(self).port_out
                } else if decoded matches Ok(Instruction::Out(_)) && old(self).port_out is Some {
                    &&& res == Ok::<(), CpuError>(())
                    &&& final(self)@ == old(self)@.out()
                    &&& final(self).port_out is Some
                    &&& final(self).port_in == old(self).port_in
                } else {
                    final(self).outcome_is(old(self), res, old(self)@.step())
                }
            }),
    {
        let instruction = decode(self.ram.as_slice(), self.pc)?;
        proof {
            self.ram.lemma_size_fits();
        }
        match instruction {
            Instruction::Nop => {
                self.nop();
                Ok(())
            },
            Instruction::Jmp(addr) => {
                self.jmp(addr);
                Ok(())
            },
            Instruction::CondJmp(cond, addr) => {
                self.cond_jmp(cond, addr);
                Ok(())
            },
            Instruction::Call(addr) => self.call(addr),
            Instruction::Ret => self.ret(),
            // ports
            Instruction::In(port) => self.input(port),
            Instruction::Out(port) => self.out(port),
            // register
            Instruction::Dcr(r) => self.dcr(r),
            Instruction::Inr(r) => self.inr(r),
            Instruction::Cmp(r) => self.cmp(r),
            Instruction::Cpi(val) => {
                self.cpi(val);
                Ok(())
            },
            Instruction::Mvi(a, val) => self.mvi(a, val),
            // register pair
            Instruction::Sphl => {
                self.sphl();
                Ok(())
            },
            Instruction::Lxi(rp, d16) => self.lxi(rp, d16),
            Instruction::Lda(d16) => self.lda(d16),
            Instruction::Sta(d16) => self.sta(d16),
            Instruction::Lhld(d16) => self.lhld(d16),
            Instruction::Shld(d16) => self.shld(d16),
            Instruction::Ldax(rp) => self.ldax(rp),
            Instruction::Stax(rp) => self.stax(rp),
            Instruction::Dcx(rp) => self.dcx(rp),
            Instruction::Inx(rp) => self.inx(rp),
            Instruction::PopPsw => self.pop_psw(),
            Instruction::Pop(rp) => self.pop(rp),
            Instruction::PushPsw => self.push_psw(),
            Instruction::Push(rp) => self.push(rp),
            // other
            Instruction::Halt => self.halt(),
            Instruction::Mov(a, b) => self.mov(a, b),
        }
    }

    /// Reads what the register selector `r` stands for: a register, or for
    /// selector 6 the memory byte that HL points at.
    fn operand(&self, r: usize) -> (value: Result<u8, CpuError>)
        requires
            r < 8,
        ensures
            value == self@.operand(r),
    {
        if r == MEMORY_OPERAND {
            self.ram.read(self.reg.hl() as usize)
        } else {
            Ok(*self.reg.index(r))
        }
    }

    /// Writes `value` to what the register selector `r` stands for.
    fn set_operand(&mut self, r: usize, value: u8) -> (res: Result<(), CpuError>)
        requires
            r < 8,
        ensures
            final(self).outcome_is(old(self), res, old(self)@.set_operand(r, value)),
    {
        if r == MEMORY_OPERAND {
            self.ram.write(self.reg.hl() as usize, value)
        } else {
            *self.reg.index_mut(r) = value;
            Ok(())
        }
    }

    /// Helper to push something on the stack.
    fn internal_push(&mut self, value: u16) -> (res: Result<(), CpuError>)
        ensures
            final(self).outcome_is(old(self), res, old(self)@.pushed(value)),
    {
        self.ram.dword_set(self.sp as usize, value)?;
        self.sp = self.sp.wrapping_add(2);
        Ok(())
    }

    /// Helper to pop something from the stack.
    fn internal_pop(&mut self) -> (res: Result<u16, CpuError>)
        ensures
            final(self).same_ports(old(self)),
            match old(self)@.popped() {
                Ok((value, after)) => res == Ok::<u16, CpuError>(value) && final(self)@ == after,
                Err(e) => res == Err::<u16, CpuError>(e) && final(self)@ == old(self)@,
            },
    {
        let sp = self.sp.wrapping_sub(2);
        let value = self.ram.dword(sp as usize)?;
        self.sp = sp;
        Ok(value)
    }

    /// Reads the 16-bit register that the pair selector `rp` names: BC, DE,
    /// HL, or SP for selector 3.
    fn pair(&self, rp: u8) -> (value: u16)
        requires
            rp < 4,
        ensures
            value == self@.pair(rp),
    {
        match rp {
            0x00 => self.reg.bc(),
            0x01 => self.reg.de(),
            0x02 => self.reg.hl(),
            _ => self.sp,
        }
    }

    /// Writes the 16-bit register that the pair selector `rp` names: BC, DE,
    /// HL, or SP for selector 3.
    fn set_pair(&mut self, rp: u8, value: u16)
        requires
            rp < 4,
        ensures
            final(self)@ == old(self)@.set_pair(rp, value),
            final(self).same_ports(old(self)),
    {
        match rp {
            0x00 => self.reg.bc_set(value),
            0x01 => self.reg.de_set(value),
            0x02 => self.reg.hl_set(value),
            _ => self.sp = value,
        }
    }

    /// Sets the flags from a comparison of A with `value`.
    fn compare(&mut self, value: u8)
        ensures
            final(self)@ == old(self)@.compared(value),
            final(self).same_ports(old(self)),
    {
        let res = (self.reg.a.wrapping_sub(value), self.reg.a < value);
        let updates = [Flags::Zero, Flags::Sign, Flags::Parity, Flags::Carry, Flags::AuxCarry];
        proof {
            assert(updates@[0] == Flags::Zero && updates@[1] == Flags::Sign && updates@[2]
                == Flags::Parity && updates@[3] == Flags::Carry);
            lemma_update_flags_named(self.reg, res.0, res.1, updates@);
        }
        self.reg.update_flags(res, &updates);
    }

    /// Stores the result of an increment or a decrement in the operand and
    /// sets sign, zero and parity from it.
    fn count(&mut self, r: usize, value: u8) -> (res: Result<(), CpuError>)
        requires
            r < 8,
            old(self).pc < usize::MAX,
        ensures
            final(self).outcome_is(old(self), res, old(self)@.counted(r, value)),
    {
        self.set_operand(r, value)?;
        let updates = [Flags::Zero, Flags::Sign, Flags::Parity, Flags::AuxCarry];
        proof {
            assert(updates@[0] == Flags::Zero && updates@[1] == Flags::Sign && updates@[2]
                == Flags::Parity && updates@[3] == Flags::AuxCarry);
            lemma_update_flags_named(self.reg, value, false, updates@);
        }
        self.reg.update_flags((value, false), &updates);
        self.pc += 1;
        Ok(())
    }

    // ============= INSTRUCTIONS ==============

    /// Unconditional jump.
    pub fn jmp(&mut self, addr: usize)
        ensures
            final(self)@ == old(self)@.jmp(addr),
            final(self).same_ports(old(self)),
    {
        self.pc = addr;
    }

    /// Conditional jump.
    pub fn cond_jmp(&mut self, cond: u8, addr: usize)
        requires
            cond < 8,
            old(self).pc + 3 <= usize::MAX,
        ensures
            final(self)@ == old(self)@.cond_jmp(cond, addr),
            final(self).same_ports(old(self)),
    {
        let cond = match cond {
            0b000 => !self.reg.zero(),
            0b001 => self.reg.zero(),
            0b010 => !self.reg.carry(),
            0b011 => self.reg.carry(),
            0b100 => !self.reg.parity(),
            0b101 => self.reg.parity(),
            0b110 => !self.reg.sign(),
            _ => self.reg.sign(),
        };
        if cond {
            self.pc = addr;
        } else {
            self.pc += 3;
        }
    }

    /// Places the byte that the input hook answered in A and moves past the
    /// IN instruction.
    pub fn store_input(&mut self, value: u8)
        requires
            old(self).pc + 2 <= usize::MAX,
        ensures
            final(self)@ == old(self)@.input(value),
            final(self).same_ports(old(self)),
    {
        self.reg.a = value;
        self.pc += 2;
    }

    /// Read input port into A.
    pub fn input(&mut self, pa: u8) -> (res: Result<(), CpuError>)
        requires
            old(self).pc + 2 <= usize::MAX,
        ensures
            old(self).port_in is None ==> final(self).outcome_is(
                old(self),
                res,
                Err(CpuError::MissingPortHandler(Direction::In)),
            ),
            old(self).port_in is Some ==> res == Ok::<(), CpuError>(()) && final(self)@ == old(
                self,
            )@.input(final(self).reg.a) && final(self).port_in is Some && final(self).port_out
                == old(self).port_out,
    {
        let value = match &mut self.port_in {
            Some(hook) => hook.read(
                &Snapshot { reg: &self.reg, sp: self.sp, pc: self.pc, ram: &self.ram },
                pa,
            ),
            None => return Err(CpuError::MissingPortHandler(Direction::In)),
        };
        self.store_input(value);
        Ok(())
    }

    /// Write A to output port.
    pub fn out(&mut self, pa: u8) -> (res: Result<(), CpuError>)
        requires
            old(self).pc + 2 <= usize::MAX,
        ensures
            old(self).port_out is None ==> final(self).outcome_is(
                old(self),
                res,
                Err(CpuError::MissingPortHandler(Direction::Out)),
            ),
            old(self).port_out is Some ==> res == Ok::<(), CpuError>(()) && final(self)@ == old(
                self,
            )@.out() && final(self).port_out is Some && final(self).port_in == old(self).port_in,
    {
        match &mut self.port_out {
            Some(hook) => hook.write(
                &Snapshot { reg: &self.reg, sp: self.sp, pc: self.pc, ram: &self.ram },
                pa,
                self.reg.a,
            ),
            None => return Err(CpuError::MissingPortHandler(Direction::Out)),
        };
        self.pc += 2;
        Ok(())
    }

    /// Unconditional subroutine call.
    pub fn call(&mut self, addr: usize) -> (res: Result<(), CpuError>)
        requires
            old(self).pc + 3 <= usize::MAX,
        ensures
            final(self).outcome_is(old(self), res, old(self)@.call(addr)),
    {
        let ret_addr = self.pc + 3;
        self.internal_push((ret_addr % 0x1_0000) as u16)?;
        self.pc = addr;
        Ok(())
    }

    /// Return from a subroutine call.
    pub fn ret(&mut self) -> (res: Result<(), CpuError>)
        ensures
            final(self).outcome_is(old(self), res, old(self)@.ret()),
    {
        let addr = self.internal_pop()?;
        self.pc = addr as usize;
        Ok(())
    }

    /// Load A from memory: writes the content of mem[d16] to A.
    pub fn lda(&mut self, d16: u16) -> (res: Result<(), CpuError>)
        requires
            old(self).pc + 3 <= usize::MAX,
        ensures
            final(self).outcome_is(old(self), res, old(self)@.lda(d16)),
    {
        self.reg.a = self.ram.read(d16 as usize)?;
        self.pc += 3;
        Ok(())
    }

    /// Store A to memory: writes the content of A to mem[d16].
    pub fn sta(&mut self, d16: u16) -> (res: Result<(), CpuError>)
        requires
            old(self).pc + 3 <= usize::MAX,
        ensures
            final(self).outcome_is(old(self), res, old(self)@.sta(d16)),
    {
        self.ram.write(d16 as usize, self.reg.a)?;
        self.pc += 3;
        Ok(())
    }

    /// Store H:L to memory: writes the content of HL to mem[d16], L first.
    pub fn shld(&mut self, d16: u16) -> (res: Result<(), CpuError>)
        requires
            old(self).pc + 3 <= usize::MAX,
        ensures
            final(self).outcome_is(old(self), res, old(self)@.shld(d16)),
    {
        self.ram.dword_set(d16 as usize, self.reg.hl())?;
        self.pc += 3;
        Ok(())
    }

    /// Load indirect through BC or DE.
    pub fn ldax(&mut self, rp: u8) -> (res: Result<(), CpuError>)
        requires
            old(self).pc < usize::MAX,
        ensures
            final(self).outcome_is(old(self), res, old(self)@.ldax(rp)),
    {
        let addr = match rp {
            0x00 => self.reg.bc(),
            0x01 => self.reg.de(),
            a => return Err(CpuError::InvalidRegisterPairSelector(a, PairUse::Ldax)),
        };
        self.reg.a = self.ram.read(addr as usize)?;
        self.pc += 1;
        Ok(())
    }

    /// Store indirect through BC or DE.
    pub fn stax(&mut self, rp: u8) -> (res: Result<(), CpuError>)
        requires
            old(self).pc < usize::MAX,
        ensures
            final(self).outcome_is(old(self), res, old(self)@.stax(rp)),
    {
        let addr = match rp {
            0x00 => self.reg.bc(),
            0x01 => self.reg.de(),
            a => return Err(CpuError::InvalidRegisterPairSelector(a, PairUse::Stax)),
        };
        self.ram.write(addr as usize, self.reg.a)?;
        self.pc += 1;
        Ok(())
    }

    /// Load register pair immediate.
    pub fn lxi(&mut self, rp: u8, d16: u16) -> (res: Result<(), CpuError>)
        requires
            old(self).pc + 3 <= usize::MAX,
        ensures
            final(self).outcome_is(old(self), res, old(self)@.lxi(rp, d16)),
    {
        if rp >= 4 {
            return Err(CpuError::InvalidRegisterPairSelector(rp, PairUse::Lxi));
        }
        self.set_pair(rp, d16);
        self.pc += 3;
        Ok(())
    }

    /// Decrement register pair. Does not update any flags.
    pub fn dcx(&mut self, rp: u8) -> (res: Result<(), CpuError>)
        requires
            old(self).pc < usize::MAX,
        ensures
            final(self).outcome_is(old(self), res, old(self)@.dcx(rp)),
    {
        if rp >= 4 {
            return Err(CpuError::InvalidRegisterPairSelector(rp, PairUse::Dcx));
        }
        let value = self.pair(rp);
        self.set_pair(rp, value.wrapping_sub(1));
        self.pc += 1;
        Ok(())
    }

    /// Increment register pair. Does not update any flags.
    pub fn inx(&mut self, rp: u8) -> (res: Result<(), CpuError>)
        requires
            old(self).pc < usize::MAX,
        ensures
            final(self).outcome_is(old(self), res, old(self)@.inx(rp)),
    {
        if rp >= 4 {
            return Err(CpuError::InvalidRegisterPairSelector(rp, PairUse::Inx));
        }
        let value = self.pair(rp);
        self.set_pair(rp, value.wrapping_add(1));
        self.pc += 1;
        Ok(())
    }

    /// Compare register with A.
    pub fn cmp(&mut self, r: usize) -> (res: Result<(), CpuError>)
        requires
            r < 8,
            old(self).pc < usize::MAX,
        ensures
            final(self).outcome_is(old(self), res, old(self)@.cmp(r)),
    {
        let value = self.operand(r)?;
        self.compare(value);
        self.pc += 1;
        Ok(())
    }

    /// Compare immediate with A.
    pub fn cpi(&mut self, val: u8)
        requires
            old(self).pc + 2 <= usize::MAX,
        ensures
            final(self)@ == old(self)@.cpi(val),
            final(self).same_ports(old(self)),
    {
        self.compare(val);
        self.pc += 2;
    }

    /// Increment register. Updates the flags zero, sign and parity.
    pub fn inr(&mut self, r: usize) -> (res: Result<(), CpuError>)
        requires
            r < 8,
            old(self).pc < usize::MAX,
        ensures
            final(self).outcome_is(old(self), res, old(self)@.inr(r)),
    {
        let value = self.operand(r)?;
        self.count(r, value.wrapping_add(1))
    }
}

} // verus!
