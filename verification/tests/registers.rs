use rust_8080::registers::flags::even_parity;
use rust_8080::registers::Flags as Flag;
use rust_8080::{pair_of, split, Flags, FlagsName, Registers};

#[test]
fn test_merge_of_registers() {
    let mut registers = Registers::new();
    let b = 0x03; // 0b0000_0011
    let c = 0xc0; // 0b1100_0000
    registers.b = b;
    registers.c = c;
    assert_eq!(registers.bc(), u16::to_be(0xC003));
}

#[test]
fn new_registers_are_zero_with_fixed_flag_bit() {
    let registers = Registers::new();
    assert_eq!(
        registers,
        Registers { flags: 0x02, a: 0, b: 0, c: 0, d: 0, e: 0, h: 0, l: 0 }
    );
    assert_eq!(Registers::default(), registers);
    assert_eq!(registers.psw(), 0x0200);
}

#[test]
fn pairs_are_high_byte_first() {
    let mut registers = Registers::new();
    registers.b = 0x12;
    registers.c = 0x34;
    registers.d = 0x56;
    registers.e = 0x78;
    registers.h = 0x9a;
    registers.l = 0xbc;
    assert_eq!(registers.bc(), 0x1234);
    assert_eq!(registers.de(), 0x5678);
    assert_eq!(registers.hl(), 0x9abc);
}

#[test]
fn pair_setters_split_high_and_low() {
    let mut registers = Registers::new();
    registers.bc_set(0x1234);
    registers.de_set(0x5678);
    registers.hl_set(0x9abc);
    assert_eq!((registers.b, registers.c), (0x12, 0x34));
    assert_eq!((registers.d, registers.e), (0x56, 0x78));
    assert_eq!((registers.h, registers.l), (0x9a, 0xbc));
    assert_eq!(registers.a, 0);
    assert_eq!(registers.flags, 0x02);
}

#[test]
fn pair_of_and_split_are_inverse() {
    assert_eq!(pair_of(0xab, 0xcd), 0xabcd);
    assert_eq!(split(0xabcd), (0xab, 0xcd));
    assert_eq!(pair_of(0x00, 0xff), 0x00ff);
    assert_eq!(split(0xff00), (0xff, 0x00));
    for word in [0u16, 1, 0x00ff, 0x0100, 0x8000, 0xffff, 0x4235] {
        let (hi, lo) = split(word);
        assert_eq!(pair_of(hi, lo), word);
    }
}

#[test]
fn psw_reads_fixed_flags_above_a() {
    let mut registers = Registers::new();
    registers.a = 0x99;
    registers.flags = 0x00;
    assert_eq!(registers.psw(), 0x0299);
    registers.flags = 0xff;
    assert_eq!(registers.psw(), 0xd799);
    registers.flags = 0x28;
    assert_eq!(registers.psw(), 0x0299);
}

#[test]
fn set_psw_forces_fixed_bits() {
    let mut registers = Registers::new();
    registers.set_psw(0xffaa);
    assert_eq!(registers.a, 0xaa);
    assert_eq!(registers.flags, 0xd7);
    registers.set_psw(0x0011);
    assert_eq!(registers.a, 0x11);
    assert_eq!(registers.flags, 0x02);
    registers.set_psw(0x2a00);
    assert_eq!(registers.flags, 0x02);
    assert_eq!(registers.psw(), 0x0200);
}

#[test]
fn flag_bits_are_at_their_positions() {
    let mut registers = Registers::new();
    registers.flags = 0x80;
    assert_eq!(
        (registers.sign(), registers.zero(), registers.half_carry(), registers.parity(), registers.carry()),
        (true, false, false, false, false)
    );
    registers.flags = 0x40;
    assert_eq!(
        (registers.sign(), registers.zero(), registers.half_carry(), registers.parity(), registers.carry()),
        (false, true, false, false, false)
    );
    registers.flags = 0x10;
    assert_eq!(
        (registers.sign(), registers.zero(), registers.half_carry(), registers.parity(), registers.carry()),
        (false, false, true, false, false)
    );
    registers.flags = 0x04;
    assert_eq!(
        (registers.sign(), registers.zero(), registers.half_carry(), registers.parity(), registers.carry()),
        (false, false, false, true, false)
    );
    registers.flags = 0x01;
    assert_eq!(
        (registers.sign(), registers.zero(), registers.half_carry(), registers.parity(), registers.carry()),
        (false, false, false, false, true)
    );
    registers.flags = 0x2a;
    assert_eq!(
        (registers.sign(), registers.zero(), registers.half_carry(), registers.parity(), registers.carry()),
        (false, false, false, false, false)
    );
}

#[test]
fn flag_setters_write_one_bit_and_fix_the_rest() {
    let mut registers = Registers::new();
    registers.set_sign(true);
    assert_eq!(registers.flags, 0x82);
    registers.set_zero(true);
    assert_eq!(registers.flags, 0xc2);
    registers.set_half_carry(true);
    assert_eq!(registers.flags, 0xd2);
    registers.set_parity(true);
    assert_eq!(registers.flags, 0xd6);
    registers.set_carry(true);
    assert_eq!(registers.flags, 0xd7);
    registers.set_sign(false);
    assert_eq!(registers.flags, 0x57);
    registers.set_zero(false);
    assert_eq!(registers.flags, 0x17);
    registers.set_half_carry(false);
    assert_eq!(registers.flags, 0x07);
    registers.set_parity(false);
    assert_eq!(registers.flags, 0x03);
    registers.set_carry(false);
    assert_eq!(registers.flags, 0x02);
    registers.flags = 0xff;
    registers.set_carry(true);
    assert_eq!(registers.flags, 0xd7);
}

#[test]
fn index_selects_registers() {
    let mut registers = Registers::new();
    registers.a = 7;
    registers.b = 1;
    registers.c = 2;
    registers.d = 3;
    registers.e = 4;
    registers.h = 5;
    registers.l = 6;
    assert_eq!(*registers.index(0), 1);
    assert_eq!(*registers.index(1), 2);
    assert_eq!(*registers.index(2), 3);
    assert_eq!(*registers.index(3), 4);
    assert_eq!(*registers.index(4), 5);
    assert_eq!(*registers.index(5), 6);
    assert_eq!(*registers.index(7), 7);
    *registers.index_mut(3) = 0x44;
    *registers.index_mut(7) = 0x77;
    assert_eq!(registers.e, 0x44);
    assert_eq!(registers.a, 0x77);
    assert_eq!(registers.d, 3);
}

#[test]
fn parity_is_even_number_of_ones() {
    assert_eq!(even_parity(0x03), true);
    assert_eq!(even_parity(0x07), false);
    assert_eq!(even_parity(0x00), true);
    assert_eq!(even_parity(0xff), true);
    assert_eq!(even_parity(0x01), false);
    assert_eq!(even_parity(0x80), false);
    assert_eq!(even_parity(0x29), false);
    for value in 0u8..=255 {
        assert_eq!(even_parity(value), value.count_ones() % 2 == 0);
    }
}

#[test]
fn update_flags_recomputes_what_is_named() {
    let mut registers = Registers::new();
    registers.update_flags((0x03, true), &[Flag::Sign, Flag::Zero, Flag::Parity, Flag::Carry, Flag::AuxCarry]);
    assert_eq!(
        (registers.sign(), registers.zero(), registers.parity(), registers.carry(), registers.half_carry()),
        (false, false, true, true, false)
    );
    registers.update_flags((0x80, false), &[Flag::Sign, Flag::Parity]);
    assert_eq!(
        (registers.sign(), registers.zero(), registers.parity(), registers.carry(), registers.half_carry()),
        (true, false, false, true, false)
    );
    registers.update_flags((0x00, false), &[Flag::Zero, Flag::Zero]);
    assert_eq!(
        (registers.sign(), registers.zero(), registers.parity(), registers.carry(), registers.half_carry()),
        (true, true, false, true, false)
    );
    registers.set_half_carry(true);
    registers.update_flags((0x07, false), &[Flag::AuxCarry]);
    assert_eq!(registers.flags, 0xd3);
    registers.update_flags((0x07, false), &[]);
    assert_eq!(registers.flags, 0xd3);
    registers.update_flags((0x07, false), &[Flag::Carry, Flag::Parity, Flag::Zero, Flag::Sign]);
    assert_eq!(registers.flags, 0x12);
}

#[test]
fn flags_struct_updates_what_is_named() {
    let mut flags = Flags::new();
    assert_eq!(
        (flags.sign, flags.zero, flags.parity, flags.carry, flags.aux_carry),
        (false, false, false, false, false)
    );
    flags.update((0x83, true), &[FlagsName::Sign, FlagsName::Parity, FlagsName::Carry]);
    assert_eq!(
        (flags.sign, flags.zero, flags.parity, flags.carry, flags.aux_carry),
        (true, false, false, true, false)
    );
    flags.update((0x00, false), &[FlagsName::Zero, FlagsName::AuxCarry, FlagsName::Parity]);
    assert_eq!(
        (flags.sign, flags.zero, flags.parity, flags.carry, flags.aux_carry),
        (true, true, true, true, false)
    );
    let defaults = Flags::default();
    assert_eq!(defaults.as_byte(), 0x02);
}

#[test]
fn flags_struct_packs_like_the_flags_byte() {
    let mut flags = Flags::new();
    assert_eq!(flags.as_byte(), 0x02);
    flags.sign = true;
    assert_eq!(flags.as_byte(), 0x82);
    flags.zero = true;
    assert_eq!(flags.as_byte(), 0xc2);
    flags.aux_carry = true;
    assert_eq!(flags.as_byte(), 0xd2);
    flags.parity = true;
    assert_eq!(flags.as_byte(), 0xd6);
    flags.carry = true;
    assert_eq!(flags.as_byte(), 0xd7);
    let mut registers = Registers::new();
    registers.set_psw(pair_of(flags.as_byte(), 0));
    assert_eq!(
        (registers.sign(), registers.zero(), registers.half_carry(), registers.parity(), registers.carry()),
        (true, true, true, true, true)
    );
}
