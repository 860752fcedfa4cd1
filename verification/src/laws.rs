//! Laws of the instruction set: what holds of the instructions for every
//! machine state, proved from their definitions.

use vstd::prelude::*;
use crate::decoder::{
    spec_decode, spec_instruction, spec_lower_field, spec_pair_field, spec_upper_field, Instruction,
};
use crate::error::CpuError;
use crate::memory::{holds_dword, spec_dword, spec_dword_set};
use crate::registers::flags::{
    is_flag_bit, lemma_fix_flags, lemma_flag_write, spec_bit, spec_even_parity, spec_fix_flags,
    spec_ones, Flags, AUX_CARRY_BIT, CARRY_BIT, PARITY_BIT, SIGN_BIT, ZERO_BIT,
};
use crate::registers::Registers;
use crate::semantics::{spec_return_word, State};
use crate::word::{lemma_pair_split, lemma_pair_value, lemma_split_pair, spec_high, spec_low};

verus! {

/// Where the byte at the program counter is 0, one step moves the program
/// counter to the next byte and changes nothing else.
pub proof fn law_nop_moves_only_pc(s: State)
    requires
        0 <= s.pc < s.mem.len(),
        s.mem[s.pc] == 0,
    ensures
        s.step() == Ok::<State, CpuError>(State { pc: s.pc + 1, ..s }),
{
}

/// A jump sets the program counter to its address, whatever the program
/// counter was, and changes nothing else. Decoded from memory, the address is
/// the byte after the opcode plus 256 times the byte after that.
pub proof fn law_jmp_sets_pc(s: State, addr: usize)
    ensures
        s.jmp(addr) == (State { pc: addr as int, ..s }),
        0 <= s.pc && s.pc + 2 < s.mem.len() && s.mem[s.pc] == 0xc3 ==> s.step() == Ok::<
            State,
            CpuError,
        >(State { pc: s.mem[s.pc + 1] + 256 * s.mem[s.pc + 2], ..s }),
{
    if 0 <= s.pc && s.pc + 2 < s.mem.len() && s.mem[s.pc] == 0xc3 {
        lemma_pair_value(s.mem[s.pc + 2], s.mem[s.pc + 1]);
    }
}

/// A word written into memory is the word read back from the same address.
pub proof fn law_dword_round_trip(mem: Seq<u8>, idx: int, value: u16)
    requires
        holds_dword(mem, idx),
    ensures
        holds_dword(spec_dword_set(mem, idx, value), idx),
        spec_dword(spec_dword_set(mem, idx, value), idx) == value,
{
    lemma_pair_split(value);
}

/// A word that was pushed is the word that is popped, and the stack pointer
/// is back where it was.
pub proof fn law_pushed_popped(s: State, value: u16)
    requires
        s.pushed(value) is Ok,
    ensures
        s.pushed(value).unwrap().popped() matches Ok((word, after)) && word == value && after.sp
            == s.sp && after.reg == s.reg && after.pc == s.pc,
{
    law_dword_round_trip(s.mem, s.sp as int, value);
}

/// A call followed by a return at the called address leaves the program
/// counter just after the call instruction and the stack pointer where it was
/// before the call. This holds wherever the two bytes at the stack pointer lie
/// in memory, so that the call succeeds, and the return address fits the
/// 16-bit word that the stack keeps of it.
pub proof fn law_call_then_ret(s: State, addr: usize)
    requires
        0 <= s.pc,
        s.pc + 3 <= 0xffff,
        s.call(addr) is Ok,
    ensures
        s.call(addr).unwrap().pc == addr,
        s.call(addr).unwrap().ret() matches Ok(after) && after.pc == s.pc + 3 && after.sp == s.sp
            && after.reg == s.reg,
{
    law_pushed_popped(s, spec_return_word(s.pc + 3));
}

/// A decrement of an operand that holds 0 leaves 0xff in it, sets the sign
/// flag, clears the zero flag and leaves the carry as it was.
pub proof fn law_dcr_of_zero(s: State, r: usize)
    requires
        r < 8,
        s.operand(r) == Ok::<u8, CpuError>(0),
    ensures
        s.dcr(r) matches Ok(after) && after.operand(r) == Ok::<u8, CpuError>(0xff)
            && after.reg.spec_sign() && !after.reg.spec_zero() && after.reg.spec_carry()
            == s.reg.spec_carry(),
{
    let stored = s.set_operand(r, 0xff).unwrap();
    law_flags_of_result(stored.reg, 0xff, false);
    assert(spec_bit(0xffu8, 7)) by (bit_vector);
}

/// Neither an increment nor a decrement touches the carry or the auxiliary
/// carry.
pub proof fn law_counting_keeps_carry(s: State, r: usize)
    requires
        r < 8,
    ensures
        s.inr(r) matches Ok(after) ==> after.reg.spec_carry() == s.reg.spec_carry()
            && after.reg.spec_half_carry() == s.reg.spec_half_carry(),
        s.dcr(r) matches Ok(after) ==> after.reg.spec_carry() == s.reg.spec_carry()
            && after.reg.spec_half_carry() == s.reg.spec_half_carry(),
{
    if s.operand(r) is Ok {
        let value = s.operand(r).unwrap();
        let up = value.wrapping_add(1);
        if s.set_operand(r, up) is Ok {
            law_flags_of_result(s.set_operand(r, up).unwrap().reg, up, false);
        }
        let down = value.wrapping_sub(1);
        if s.set_operand(r, down) is Ok {
            law_flags_of_result(s.set_operand(r, down).unwrap().reg, down, false);
        }
    }
}

/// A register pair that is pushed and then popped into any register pair
/// leaves that pair with the value that was pushed, and the stack pointer
/// where it was before the push.
pub proof fn law_push_then_pop(s: State, from: u8, into: u8)
    requires
        from < 3,
        into < 3,
        s.push(from) is Ok,
    ensures
        s.push(from).unwrap().pop(into) matches Ok(after) && after.pair(into) == s.pair(from)
            && after.sp == s.sp,
{
    let value = s.pair(from);
    law_pushed_popped(s, value);
    law_pair_round_trip(s.reg, value);
}

/// The flags and A that are pushed and then popped are the flags and A again:
/// A is what it was, and so is every condition flag.
pub proof fn law_push_then_pop_psw(s: State)
    requires
        s.push_psw() is Ok,
    ensures
        s.push_psw().unwrap().pop_psw() matches Ok(after) && after.reg.a == s.reg.a
            && after.reg.flags == spec_fix_flags(s.reg.flags) && after.sp == s.sp,
{
    law_pushed_popped(s, s.reg.spec_psw());
    lemma_split_pair(spec_fix_flags(s.reg.flags), s.reg.a);
    lemma_fix_flags(s.reg.flags);
}

/// After the flags have been set from a result byte, the sign flag is bit 7
/// of the result, the zero flag says whether the result is 0, and the parity
/// flag is set if and only if the number of 1-bits in the result is even. The
/// carry is the carry that was given, or the carry as it was where none is
/// written; the auxiliary carry is as it was.
pub proof fn law_flags_of_result(reg: Registers, val: u8, carry: bool)
    ensures
        reg.spec_result_flags(val).spec_sign() == spec_bit(val, 7),
        reg.spec_result_flags(val).spec_zero() == (val == 0),
        reg.spec_result_flags(val).spec_parity() == (spec_ones(val) % 2 == 0),
        reg.spec_result_flags(val).spec_carry() == reg.spec_carry(),
        reg.spec_result_flags(val).spec_half_carry() == reg.spec_half_carry(),
        reg.spec_result_flags_carry(val, carry).spec_sign() == spec_bit(val, 7),
        reg.spec_result_flags_carry(val, carry).spec_zero() == (val == 0),
        reg.spec_result_flags_carry(val, carry).spec_parity() == (spec_ones(val) % 2 == 0),
        reg.spec_result_flags_carry(val, carry).spec_carry() == carry,
        reg.spec_result_flags_carry(val, carry).spec_half_carry() == reg.spec_half_carry(),
{
    let r1 = reg.spec_set_flag(SIGN_BIT, spec_bit(val, 7));
    let r2 = r1.spec_set_flag(ZERO_BIT, val == 0);
    let r3 = r2.spec_set_flag(PARITY_BIT, spec_even_parity(val));
    lemma_flag_write(reg.flags, SIGN_BIT, spec_bit(val, 7));
    lemma_flag_write(r1.flags, ZERO_BIT, val == 0);
    lemma_flag_write(r2.flags, PARITY_BIT, spec_even_parity(val));
    lemma_flag_write(r3.flags, CARRY_BIT, carry);
    assert(is_flag_bit(SIGN_BIT) && is_flag_bit(ZERO_BIT) && is_flag_bit(PARITY_BIT)
        && is_flag_bit(CARRY_BIT) && is_flag_bit(AUX_CARRY_BIT));
}

/// After an update of the flags from a result byte, each flag that the list
/// names reads as it was computed: the sign as bit 7 of the result, the zero
/// flag as whether the result is 0, the parity flag as whether the number of
/// 1-bits in the result is even, the carry as the carry that was given. Each
/// flag that the list does not name reads as before, and so does the
/// auxiliary carry in any case. No register changes.
pub proof fn law_update_flags(reg: Registers, val: u8, carry: bool, updates: Seq<Flags>)
    ensures
        ({
            let after = reg.spec_update_flags(val, carry, updates);
            &&& after.spec_sign() == if updates.contains(Flags::Sign) {
                spec_bit(val, 7)
            } else {
                reg.spec_sign()
            }
            &&& after.spec_zero() == if updates.contains(Flags::Zero) {
                val == 0
            } else {
                reg.spec_zero()
            }
            &&& after.spec_parity() == if updates.contains(Flags::Parity) {
                spec_ones(val) % 2 == 0
            } else {
                reg.spec_parity()
            }
            &&& after.spec_carry() == if updates.contains(Flags::Carry) {
                carry
            } else {
                reg.spec_carry()
            }
            &&& after.spec_half_carry() == reg.spec_half_carry()
            &&& after == Registers { flags: after.flags, ..reg }
        }),
{
    assert(is_flag_bit(SIGN_BIT) && is_flag_bit(ZERO_BIT) && is_flag_bit(PARITY_BIT)
        && is_flag_bit(CARRY_BIT) && is_flag_bit(AUX_CARRY_BIT));
    let r1 = if updates.contains(Flags::Sign) {
        lemma_flag_write(reg.flags, SIGN_BIT, spec_bit(val, 7));
        reg.spec_set_flag(SIGN_BIT, spec_bit(val, 7))
    } else {
        reg
    };
    let r2 = if updates.contains(Flags::Zero) {
        lemma_flag_write(r1.flags, ZERO_BIT, val == 0);
        r1.spec_set_flag(ZERO_BIT, val == 0)
    } else {
        r1
    };
    let r3 = if updates.contains(Flags::Parity) {
        lemma_flag_write(r2.flags, PARITY_BIT, spec_even_parity(val));
        r2.spec_set_flag(PARITY_BIT, spec_even_parity(val))
    } else {
        r2
    };
    if updates.contains(Flags::Carry) {
        lemma_flag_write(r3.flags, CARRY_BIT, carry);
    }
}

/// The flags byte reads with bit 1 set and bits 3 and 5 clear whatever was
/// written to it: in the status word of any register file, and in the
/// register file after a write of any status word or of any condition flag.
/// Such a write keeps the five condition bits that it was given.
pub proof fn law_fixed_flag_bits(reg: Registers, value: u16, bit: usize, set: bool)
    requires
        is_flag_bit(bit),
    ensures
        spec_high(reg.spec_psw()) == spec_fix_flags(reg.flags),
        spec_low(reg.spec_psw()) == reg.a,
        spec_bit(spec_high(reg.spec_psw()), 1),
        !spec_bit(spec_high(reg.spec_psw()), 3),
        !spec_bit(spec_high(reg.spec_psw()), 5),
        spec_bit(reg.spec_set_psw(value).flags, 1),
        !spec_bit(reg.spec_set_psw(value).flags, 3),
        !spec_bit(reg.spec_set_psw(value).flags, 5),
        forall|flag: usize|
            is_flag_bit(flag) ==> spec_bit(reg.spec_set_psw(value).flags, flag) == spec_bit(
                spec_high(value),
                flag,
            ),
        spec_bit(reg.spec_set_flag(bit, set).flags, 1),
        !spec_bit(reg.spec_set_flag(bit, set).flags, 3),
        !spec_bit(reg.spec_set_flag(bit, set).flags, 5),
        spec_bit(reg.spec_set_flag(bit, set).flags, bit) == set,
{
    lemma_split_pair(spec_fix_flags(reg.flags), reg.a);
    lemma_fix_flags(reg.flags);
    lemma_fix_flags(spec_high(value));
    lemma_flag_write(reg.flags, bit, set);
    lemma_fix_flags(crate::registers::flags::spec_with_bit(reg.flags, bit, set));
}

/// A status word that is written and then read is the word that was written,
/// but for the three fixed bits of its flags byte.
pub proof fn law_psw_round_trip(reg: Registers, value: u16)
    ensures
        spec_low(reg.spec_set_psw(value).spec_psw()) == spec_low(value),
        spec_high(reg.spec_set_psw(value).spec_psw()) == spec_fix_flags(spec_high(value)),
{
    let after = reg.spec_set_psw(value);
    lemma_split_pair(spec_fix_flags(after.flags), after.a);
    lemma_fix_flags(spec_high(value));
}

/// A register pair that is written and then read is the value that was
/// written, and a pair that is read and written back leaves the registers as
/// they were.
pub proof fn law_pair_round_trip(reg: Registers, value: u16)
    ensures
        reg.spec_bc_set(value).spec_bc() == value,
        reg.spec_de_set(value).spec_de() == value,
        reg.spec_hl_set(value).spec_hl() == value,
        reg.spec_bc_set(reg.spec_bc()) == reg,
        reg.spec_de_set(reg.spec_de()) == reg,
        reg.spec_hl_set(reg.spec_hl()) == reg,
{
    lemma_pair_split(value);
    lemma_split_pair(reg.b, reg.c);
    lemma_split_pair(reg.d, reg.e);
    lemma_split_pair(reg.h, reg.l);
}

/// No instruction changes the size of the memory.
pub proof fn law_memory_size_is_kept(s: State, instruction: Instruction, value: u8)
    ensures
        s.execute(instruction) matches Ok(after) ==> after.mem.len() == s.mem.len(),
        s.input(value).mem == s.mem,
        s.out().mem == s.mem,
{
}

/// Where two patterns overlap, the opcode belongs to the one that is tried
/// first: 0x76 is HALT and no move from memory to memory, the encodings that
/// LDAX and STAX would have for HL and SP are LHLD, LDA, SHLD and STA, and
/// the encodings that POP and PUSH would have for SP are POP PSW and PUSH
/// PSW. So whatever is decoded carries a selector that its instruction
/// accepts.
pub proof fn law_overlaps_are_decided(op: u8, b1: u8, b2: u8)
    ensures
        spec_instruction(0x76, b1, b2) == Some(Instruction::Halt),
        match spec_instruction(op, b1, b2) {
            Some(Instruction::Mov(a, b)) => a < 8 && b < 8 && !(a == 6 && b == 6),
            Some(Instruction::Ldax(rp)) | Some(Instruction::Stax(rp)) => rp < 2,
            Some(Instruction::Pop(rp)) | Some(Instruction::Push(rp)) => rp < 3,
            Some(Instruction::Lxi(rp, _)) | Some(Instruction::Dcx(rp)) | Some(
                Instruction::Inx(rp),
            ) => rp < 4,
            _ => true,
        },
{
    lemma_overlapping_patterns(op);
}

proof fn lemma_overlapping_patterns(op: u8)
    by (bit_vector)
    ensures
        0x76u8 & 0xc7 != 0xc2,
        spec_upper_field(op) < 8,
        spec_lower_field(op) < 8,
        spec_pair_field(op) < 4,
        op & 0xc0 == 0x40 && op != 0x76 ==> !(spec_upper_field(op) == 6 && spec_lower_field(op)
            == 6),
        op & 0xcf == 0x0a && op != 0x3a && op != 0x2a ==> spec_pair_field(op) < 2,
        op & 0xcf == 0x02 && op != 0x32 && op != 0x22 ==> spec_pair_field(op) < 2,
        op & 0xcf == 0xc1 && op != 0xf1 ==> spec_pair_field(op) < 3,
        op & 0xcf == 0xc5 && op != 0xf5 ==> spec_pair_field(op) < 3,
{
}

/// Whether `op` is the opcode of an arithmetic or logic instruction on A
/// (0x80 to 0xb7 on a register, 0xc6 to 0xf6 on an immediate byte), of a
/// rotate, of DAA, CMA, STC or CMC, or of an interrupt instruction (DI, EI,
/// RST).
pub open spec fn is_arithmetic_or_interrupt(op: u8) -> bool {
    ||| 0x80 <= op <= 0xb7
    ||| op == 0xc6 || op == 0xce || op == 0xd6 || op == 0xde || op == 0xe6 || op == 0xee || op
        == 0xf6
    ||| op == 0x07 || op == 0x0f || op == 0x17 || op == 0x1f
    ||| op == 0x27 || op == 0x2f || op == 0x37 || op == 0x3f
    ||| op == 0xf3 || op == 0xfb || op & 0xc7 == 0xc7
}

/// The arithmetic and logic instructions, the rotates and the interrupt
/// instructions are not part of this machine: their opcodes match no
/// pattern, and a step that meets one fails on it without any effect.
pub proof fn law_arithmetic_is_not_decoded(op: u8, b1: u8, b2: u8)
    requires
        is_arithmetic_or_interrupt(op),
    ensures
        spec_instruction(op, b1, b2) is None,
{
    lemma_patterns_miss_arithmetic(op);
}

proof fn lemma_patterns_miss_arithmetic(op: u8)
    by (bit_vector)
    requires
        is_arithmetic_or_interrupt(op),
    ensures
        op != 0x00 && op != 0xc3 && op != 0xcd && op != 0xc9 && op != 0xdb && op != 0xd3,
        op != 0xf9 && op != 0x3a && op != 0x32 && op != 0x2a && op != 0x22 && op != 0x76,
        op != 0xfe && op != 0xf1 && op != 0xf5,
        op & 0xc7 != 0xc2,
        op & 0xc0 != 0x40,
        op & 0xc7 != 0x06,
        op & 0xc7 != 0x05,
        op & 0xc7 != 0x04,
        op & 0xf8 != 0xb8,
        op & 0xcf != 0x01,
        op & 0xcf != 0x0a,
        op & 0xcf != 0x02,
        op & 0xcf != 0x0b,
        op & 0xcf != 0x03,
        op & 0xcf != 0xc1,
        op & 0xcf != 0xc5,
{
}

/// A step never fails on a register-pair selector: that error is kept for
/// instructions that are run without having been decoded.
pub proof fn law_step_accepts_its_selectors(s: State)
    ensures
        !(s.step() matches Err(CpuError::InvalidRegisterPairSelector(_, _))),
{
    if 0 <= s.pc < s.mem.len() {
        law_overlaps_are_decided(s.mem[s.pc], s.mem[s.pc + 1], s.mem[s.pc + 2]);
    }
}

/// Decoding looks at the bytes of one instruction and at nothing else: the
/// opcode byte and the immediate bytes, taken alone, decode to the same
/// instruction.
pub proof fn law_decode_reads_one_instruction(bytes: Seq<u8>, at: int)
    requires
        spec_decode(bytes, at) is Ok,
    ensures
        spec_decode(
            bytes.subrange(at, at + 1 + spec_decode(bytes, at).unwrap().spec_operands()),
            0,
        ) == spec_decode(bytes, at),
{
}

/// An instruction that neither jumps nor stops leaves the program counter
/// just after its own bytes: the opcode byte and its immediate bytes. A
/// conditional jump does so where its condition does not hold.
pub proof fn law_pc_moves_past_the_instruction(s: State, instruction: Instruction, value: u8)
    ensures
        !(instruction is Jmp || instruction is CondJmp || instruction is Call || instruction is Ret)
            ==> (s.execute(instruction) matches Ok(after) ==> after.pc == s.pc + 1
            + instruction.spec_operands()),
        instruction matches Instruction::CondJmp(cond, addr) && !s.condition(cond) ==> s.execute(
            instruction,
        ) == Ok::<State, CpuError>(s.advance(3)),
        s.input(value).pc == s.pc + 2,
        s.out().pc == s.pc + 2,
{
}

/// The flags change by a comparison, an increment, a decrement and a pop of
/// the status word, and by nothing else: no move, no load or store, no
/// 16-bit count, no push, no jump, call or return touches them.
pub proof fn law_flags_are_kept(s: State, instruction: Instruction, value: u8)
    ensures
        !(instruction is Cmp || instruction is Cpi || instruction is Inr || instruction is Dcr
            || instruction is PopPsw) ==> (s.execute(instruction) matches Ok(after)
            ==> after.reg.flags == s.reg.flags),
        s.input(value).reg.flags == s.reg.flags,
        s.out().reg == s.reg,
{
}

/// A comparison changes nothing but the flags and the program counter: A and
/// the operand are as they were.
pub proof fn law_compare_keeps_registers(s: State, r: usize, val: u8)
    ensures
        s.cmp(r) matches Ok(after) ==> after == (State {
            reg: Registers { flags: after.reg.flags, ..s.reg },
            pc: s.pc + 1,
            ..s
        }),
        s.cpi(val) == (State { reg: Registers { flags: s.cpi(val).reg.flags, ..s.reg }, pc: s.pc + 2, ..s }),
{
}

} // verus!
