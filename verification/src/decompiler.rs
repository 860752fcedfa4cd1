//! The disassembler: the instruction at the start of a byte window as a line
//! of text, for tracing. It reads the opcode byte and the immediate bytes of
//! that one instruction and nothing else.
//!
//! Operands are coloured with ANSI escape sequences: registers green,
//! register pairs cyan, addresses magenta and 16-bit immediates yellow.

use vstd::prelude::*;
use vstd::string::StringExecFns;
use crate::decoder::{decode, spec_decode, Instruction};
use crate::error::CpuError;
use crate::word::{spec_high, spec_low, split};

verus! {

/// One digit, decimal or hexadecimal; the letters are in lower case.
pub open spec fn spec_digit(n: u8) -> Seq<char> {
    if n == 0 {
        "0"@
    } else if n == 1 {
        "1"@
    } else if n == 2 {
        "2"@
    } else if n == 3 {
        "3"@
    } else if n == 4 {
        "4"@
    } else if n == 5 {
        "5"@
    } else if n == 6 {
        "6"@
    } else if n == 7 {
        "7"@
    } else if n == 8 {
        "8"@
    } else if n == 9 {
        "9"@
    } else if n == 10 {
        "a"@
    } else if n == 11 {
        "b"@
    } else if n == 12 {
        "c"@
    } else if n == 13 {
        "d"@
    } else if n == 14 {
        "e"@
    } else {
        "f"@
    }
}

/// A byte as two hexadecimal digits.
pub open spec fn spec_hex_byte(b: u8) -> Seq<char> {
    spec_digit(b / 16) + spec_digit(b % 16)
}

/// A byte as a decimal number without leading zeroes.
pub open spec fn spec_decimal(b: u8) -> Seq<char> {
    if b >= 100 {
        spec_digit(b / 100) + spec_digit((b / 10) % 10) + spec_digit(b % 10)
    } else if b >= 10 {
        spec_digit(b / 10) + spec_digit(b % 10)
    } else {
        spec_digit(b)
    }
}

/// A byte as `0x` and two hexadecimal digits.
pub open spec fn spec_d8(b: u8) -> Seq<char> {
    "0x"@ + spec_hex_byte(b)
}

/// A 16-bit value as `0x` and four hexadecimal digits.
pub open spec fn spec_hex_word(value: u16) -> Seq<char> {
    "0x"@ + spec_hex_byte(spec_high(value)) + spec_hex_byte(spec_low(value))
}

/// An address, in magenta.
pub open spec fn spec_addr_text(value: u16) -> Seq<char> {
    "\x1B[1;35m"@ + spec_hex_word(value) + "\x1B[m"@
}

/// A 16-bit immediate, in yellow and marked `#$`.
pub open spec fn spec_d16_text(value: u16) -> Seq<char> {
    "\x1B[1;33m#$"@ + spec_hex_word(value) + "\x1B[m"@
}

/// The name of the register that a 3-bit selector names; `%M` is the memory
/// byte that HL points at.
pub open spec fn spec_reg_name(r: usize) -> Seq<char> {
    if r == 0 {
        "%B"@
    } else if r == 1 {
        "%C"@
    } else if r == 2 {
        "%D"@
    } else if r == 3 {
        "%E"@
    } else if r == 4 {
        "%H"@
    } else if r == 5 {
        "%L"@
    } else if r == 6 {
        "%M"@
    } else {
        "%A"@
    }
}

/// A register, in green.
pub open spec fn spec_reg_text(r: usize) -> Seq<char> {
    "\x1B[1;32m"@ + spec_reg_name(r) + "\x1B[m"@
}

/// The name of the register pair that a 2-bit selector names.
pub open spec fn spec_regpair_name(r: u8) -> Seq<char> {
    if r == 0 {
        "%%BC"@
    } else if r == 1 {
        "%%DE"@
    } else if r == 2 {
        "%%HL"@
    } else {
        "SP"@
    }
}

/// A register pair, in cyan.
pub open spec fn spec_regpair_text(r: u8) -> Seq<char> {
    "\x1B[1;36m"@ + spec_regpair_name(r) + "\x1B[m"@
}

/// The mnemonic of the conditional jump with the 3-bit condition `cond`.
pub open spec fn spec_cond_jmp(cond: u8) -> Seq<char> {
    if cond == 0 {
        "JNZ"@
    } else if cond == 1 {
        "JZ"@
    } else if cond == 2 {
        "JNC"@
    } else if cond == 3 {
        "JC"@
    } else if cond == 4 {
        "JPO"@
    } else if cond == 5 {
        "JPE"@
    } else if cond == 6 {
        "JP"@
    } else {
        "JM"@
    }
}

/// The line of text for one instruction: its mnemonic, then its operands,
/// each after a tab.
pub open spec fn spec_text(instruction: Instruction) -> Seq<char> {
    match instruction {
        Instruction::Nop => "NOP"@,
        Instruction::Jmp(addr) => "JMP\t"@ + spec_addr_text(addr as u16),
        Instruction::CondJmp(cond, addr) => spec_cond_jmp(cond) + "\t"@ + spec_addr_text(
            addr as u16,
        ),
        Instruction::Call(addr) => "CALL\t"@ + spec_addr_text(addr as u16),
        Instruction::Ret => "RET"@,
        Instruction::In(port) => "IN\t"@ + spec_decimal(port),
        Instruction::Out(port) => "OUT\t"@ + spec_decimal(port),
        Instruction::Dcr(r) => "DCR\t"@ + spec_reg_text(r),
        Instruction::Inr(r) => "INR\t"@ + spec_reg_text(r),
        Instruction::Cmp(r) => "CMP\t"@ + spec_reg_text(r),
        Instruction::Cpi(val) => "CPI\t"@ + spec_d8(val),
        Instruction::Mvi(r, val) => "MVI\t"@ + spec_reg_text(r) + "\t"@ + spec_d8(val),
        Instruction::Sphl => "SPHL"@,
        Instruction::Lxi(rp, d16) => "LXI\t"@ + spec_regpair_text(rp) + "\t"@ + spec_d16_text(d16),
        Instruction::Lda(d16) => "LDA\t"@ + spec_addr_text(d16),
        Instruction::Sta(d16) => "STA\t"@ + spec_addr_text(d16),
        Instruction::Lhld(d16) => "LHLD\t"@ + spec_addr_text(d16),
        Instruction::Shld(d16) => "SHLD\t"@ + spec_addr_text(d16),
        Instruction::Ldax(rp) => "LDAX\t"@ + spec_regpair_text(rp),
        Instruction::Stax(rp) => "STAX\t"@ + spec_regpair_text(rp),
        Instruction::Dcx(rp) => "DCX\t"@ + spec_regpair_text(rp),
        Instruction::Inx(rp) => "INX\t"@ + spec_regpair_text(rp),
        Instruction::PopPsw => "POP\tPSW"@,
        Instruction::Pop(rp) => "POP\t"@ + spec_regpair_text(rp),
        Instruction::PushPsw => "PUSH\tPSW"@,
        Instruction::Push(rp) => "PUSH\t"@ + spec_regpair_text(rp),
        Instruction::Halt => "HALT"@,
        Instruction::Mov(a, b) => "MOV\t"@ + spec_reg_text(a) + "\t"@ + spec_reg_text(b),
    }
}

/// One digit, decimal or hexadecimal; the letters are in lower case.
fn digit(n: u8) -> (digit: &'static str)
    requires
        n < 16,
    ensures
        digit@ == spec_digit(n),
{
    match n {
        0 => "0",
        1 => "1",
        2 => "2",
        3 => "3",
        4 => "4",
        5 => "5",
        6 => "6",
        7 => "7",
        8 => "8",
        9 => "9",
        10 => "a",
        11 => "b",
        12 => "c",
        13 => "d",
        14 => "e",
        _ => "f",
    }
}

/// Appends a byte as two hexadecimal digits.
fn push_hex_byte(text: &mut String, b: u8)
    ensures
        final(text)@ == old(text)@ + spec_hex_byte(b),
{
    text.append(digit(b / 16));
    text.append(digit(b % 16));
}

/// Appends a 16-bit value as `0x` and four hexadecimal digits.
fn push_hex_word(text: &mut String, value: u16)
    ensures
        final(text)@ == old(text)@ + spec_hex_word(value),
{
    let (hi, lo) = split(value);
    text.append("0x");
    push_hex_byte(text, hi);
    push_hex_byte(text, lo);
}

/// A byte as a decimal number without leading zeroes.
fn decimal(b: u8) -> (text: String)
    ensures
        text@ == spec_decimal(b),
{
    let mut text = String::new();
    if b >= 100 {
        text.append(digit(b / 100));
    }
    if b >= 10 {
        text.append(digit((b / 10) % 10));
    }
    text.append(digit(b % 10));
    text
}

/// A byte as `0x` and two hexadecimal digits.
fn d8(b: u8) -> (text: String)
    ensures
        text@ == spec_d8(b),
{
    let mut text = String::from_str("0x");
    push_hex_byte(&mut text, b);
    text
}

fn cond_jmp(cond: u8) -> (res: String)
    requires
        cond < 8,
    ensures
        res@ == spec_cond_jmp(cond),
{
    let res = match cond {
        0b000 => "JNZ",
        0b001 => "JZ",
        0b010 => "JNC",
        0b011 => "JC",
        0b100 => "JPO",
        0b101 => "JPE",
        0b110 => "JP",
        _ => "JM",
    };
    String::from_str(res)
}

fn addr(value: u16) -> (text: String)
    ensures
        text@ == spec_addr_text(value),
{
    let mut text = String::from_str("\x1B[1;35m");
    push_hex_word(&mut text, value);
    text.append("\x1B[m");
    text
}

fn d16(value: u16) -> (text: String)
    ensures
        text@ == spec_d16_text(value),
{
    let mut text = String::from_str("\x1B[1;33m#$");
    push_hex_word(&mut text, value);
    text.append("\x1B[m");
    text
}

fn reg(r: usize) -> (text: String)
    requires
        r < 8,
    ensures
        text@ == spec_reg_text(r),
{
    let r = match r {
        0x00 => "%B",
        0x01 => "%C",
        0x02 => "%D",
        0x03 => "%E",
        0x04 => "%H",
        0x05 => "%L",
        0x06 => "%M",
        _ => "%A",
    };
    let mut text = String::from_str("\x1B[1;32m");
    text.append(r);
    text.append("\x1B[m");
    text
}

fn regpair(r: u8) -> (text: String)
    requires
        r < 4,
    ensures
        text@ == spec_regpair_text(r),
{
    let r = match r {
        0x00 => "%%BC",
        0x01 => "%%DE",
        0x02 => "%%HL",
        _ => "SP",
    };
    let mut text = String::from_str("\x1B[1;36m");
    text.append(r);
    text.append("\x1B[m");
    text
}

/// A mnemonic followed by a tab and one operand.
fn with_operand(mnemonic: &str, operand: String) -> (text: String)
    ensures
        text@ == mnemonic@ + "\t"@ + operand@,
{
    let mut text = String::from_str(mnemonic);
    text.append("\t");
    text.append(operand.as_str());
    text
}

/// The 16 low bits of an address.
fn low_word(addr: usize) -> (word: u16)
    requires
        addr <= 0xffff,
    ensures
        word == addr as u16,
{
    addr as u16
}

/// The text of an instruction that has been decoded.
pub fn text(instruction: Instruction) -> (line: String)
    requires
        instruction.wf(),
    ensures
        line@ == spec_text(instruction),
{
    match instruction {
        Instruction::Nop => String::from_str("NOP"),
        Instruction::Jmp(a) => String::from_str("JMP\t").concat(addr(low_word(a)).as_str()),
        Instruction::CondJmp(c, a) => with_operand(cond_jmp(c).as_str(), addr(low_word(a))),
        Instruction::Call(a) => String::from_str("CALL\t").concat(addr(low_word(a)).as_str()),
        Instruction::Ret => String::from_str("RET"),
        // ports
        Instruction::In(port) => String::from_str("IN\t").concat(decimal(port).as_str()),
        Instruction::Out(port) => String::from_str("OUT\t").concat(decimal(port).as_str()),
        // register
        Instruction::Dcr(r) => String::from_str("DCR\t").concat(reg(r).as_str()),
        Instruction::Inr(r) => String::from_str("INR\t").concat(reg(r).as_str()),
        Instruction::Cmp(r) => String::from_str("CMP\t").concat(reg(r).as_str()),
        Instruction::Cpi(val) => String::from_str("CPI\t").concat(d8(val).as_str()),
        Instruction::Mvi(r, val) => with_operand(
            String::from_str("MVI\t").concat(reg(r).as_str()).as_str(),
            d8(val),
        ),
        // register pair
        Instruction::Sphl => String::from_str("SPHL"),
        Instruction::Lxi(rp, value) => with_operand(
            String::from_str("LXI\t").concat(regpair(rp).as_str()).as_str(),
            d16(value),
        ),
        Instruction::Lda(a) => String::from_str("LDA\t").concat(addr(a).as_str()),
        Instruction::Sta(a) => String::from_str("STA\t").concat(addr(a).as_str()),
        Instruction::Lhld(a) => String::from_str("LHLD\t").concat(addr(a).as_str()),
        Instruction::Shld(a) => String::from_str("SHLD\t").concat(addr(a).as_str()),
        Instruction::Ldax(rp) => String::from_str("LDAX\t").concat(regpair(rp).as_str()),
        Instruction::Stax(rp) => String::from_str("STAX\t").concat(regpair(rp).as_str()),
        Instruction::Dcx(rp) => String::from_str("DCX\t").concat(regpair(rp).as_str()),
        Instruction::Inx(rp) => String::from_str("INX\t").concat(regpair(rp).as_str()),
        Instruction::PopPsw => String::from_str("POP\tPSW"),
        Instruction::Pop(rp) => String::from_str("POP\t").concat(regpair(rp).as_str()),
        Instruction::PushPsw => String::from_str("PUSH\tPSW"),
        Instruction::Push(rp) => String::from_str("PUSH\t").concat(regpair(rp).as_str()),
        // other
        Instruction::Halt => String::from_str("HALT"),
        Instruction::Mov(a, b) => with_operand(
            String::from_str("MOV\t").concat(reg(a).as_str()).as_str(),
            reg(b),
        ),
    }
}

/// The instruction at the start of `opcode` as a line of text, or the reason
/// why there is no instruction there: the window is empty, its first byte
/// matches no instruction pattern, or it ends before the last immediate byte.
pub fn instr(opcode: &[u8]) -> (line: Result<String, CpuError>)
    ensures
        match spec_decode(opcode@, 0) {
            Ok(instruction) => line matches Ok(text) && text@ == spec_text(instruction),
            Err(e) => line matches Err(error) && error == e,
        },
{
    let instruction = decode(opcode, 0)?;
    Ok(text(instruction))
}

} // verus!
