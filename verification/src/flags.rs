//! The five condition flags as separate booleans, and their packed form.

use vstd::prelude::*;
use crate::registers::flags::{
    even_parity, spec_bit, spec_even_parity, spec_with_bit, AUX_CARRY_BIT, CARRY_BIT, PARITY_BIT,
    SIGN_BIT, ZERO_BIT,
};

verus! {

/// The condition flags, one boolean each.
#[derive(Debug)]
pub struct Flags {
    pub sign: bool,
    pub zero: bool,
    pub parity: bool,
    pub carry: bool,
    pub aux_carry: bool,
}

/// The name of one condition flag.
#[derive(Clone, Copy, Debug, PartialEq, Eq)]
pub enum FlagsName {
    Sign,
    Zero,
    Parity,
    Carry,
    AuxCarry,
}

impl Default for Flags {
    fn default() -> (flags: Self)
        ensures
            flags == Flags::spec_new(),
    {
        Flags::new()
    }
}

impl Flags {
    /// The flags with none of them set.
    pub open spec fn spec_new() -> Flags {
        Flags { sign: false, zero: false, parity: false, carry: false, aux_carry: false }
    }

    /// These flags after the flags named in `updates` have been recomputed
    /// from the result byte `val` and the carry `carry`: sign is bit 7 of
    /// `val`, zero says that `val` is 0, parity that `val` has an even number
    /// of set bits, carry is `carry`. A flag that is not named keeps its
    /// value, and so does the auxiliary carry even when it is named.
    pub open spec fn spec_update(self, val: u8, carry: bool, updates: Seq<FlagsName>) -> Flags {
        Flags {
            sign: if updates.contains(FlagsName::Sign) {
                spec_bit(val, 7)
            } else {
                self.sign
            },
            zero: if updates.contains(FlagsName::Zero) {
                val == 0
            } else {
                self.zero
            },
            parity: if updates.contains(FlagsName::Parity) {
                spec_even_parity(val)
            } else {
                self.parity
            },
            carry: if updates.contains(FlagsName::Carry) {
                carry
            } else {
                self.carry
            },
            aux_carry: self.aux_carry,
        }
    }

    /// These flags in packed form: a byte that holds nothing but its fixed
    /// bit, with each condition flag then written at its position.
    pub open spec fn spec_as_byte(self) -> u8 {
        spec_with_bit(
            spec_with_bit(
                spec_with_bit(
                    spec_with_bit(spec_with_bit(0x02, SIGN_BIT, self.sign), ZERO_BIT, self.zero),
                    AUX_CARRY_BIT,
                    self.aux_carry,
                ),
                PARITY_BIT,
                self.parity,
            ),
            CARRY_BIT,
            self.carry,
        )
    }

    /// Whether `byte` reads as these flags: each condition flag at its
    /// position, bit 1 set, bits 3 and 5 clear.
    pub open spec fn packed_in(self, byte: u8) -> bool {
        &&& spec_bit(byte, SIGN_BIT) == self.sign
        &&& spec_bit(byte, ZERO_BIT) == self.zero
        &&& spec_bit(byte, AUX_CARRY_BIT) == self.aux_carry
        &&& spec_bit(byte, PARITY_BIT) == self.parity
        &&& spec_bit(byte, CARRY_BIT) == self.carry
        &&& spec_bit(byte, 1)
        &&& !spec_bit(byte, 3)
        &&& !spec_bit(byte, 5)
    }

    pub fn new() -> (flags: Self)
        ensures
            flags == Flags::spec_new(),
    {
        Flags { sign: false, zero: false, parity: false, carry: false, aux_carry: false }
    }

    /// Updates the flags named in `updates` from the result of an arithmetic
    /// operation, given as the result byte and the carry out of it.
    pub fn update(&mut self, res: (u8, bool), updates: &[FlagsName])
        ensures
            *final(self) == old(self).spec_update(res.0, res.1, updates@),
    {
        let (val, overflow) = res;
        let n = updates.len();
        let mut i: usize = 0;
        while i < n
            invariant
                i <= n,
                n == updates@.len(),
                *self == old(self).spec_update(val, overflow, updates@.take(i as int)),
            decreases n - i,
        {
            proof {
                let done = updates@.take(i as int);
                let all = updates@.take(i + 1);
                assert(all =~= done.push(updates@[i as int]));
                assert forall|f: FlagsName| all.contains(f) <==> (done.contains(f) || f
                    == updates@[i as int]) by {
                    if done.contains(f) {
                        let k = choose|k: int| 0 <= k < done.len() && done[k] == f;
                        assert(all[k] == f);
                    }
                    if f == updates@[i as int] {
                        assert(all[i as int] == f);
                    }
                }
            }
            assert((val & 0x80 != 0) == spec_bit(val, 7)) by (bit_vector);
            match updates[i] {
                FlagsName::Sign => self.sign = val & 0x80 != 0,
                FlagsName::Zero => self.zero = val == 0,
                FlagsName::Parity => self.parity = even_parity(val),
                FlagsName::Carry => self.carry = overflow,
                FlagsName::AuxCarry => (),
            }
            i += 1;
        }
        assert(updates@.take(n as int) =~= updates@);
    }

    /// Packs the flags into one byte: sign in bit 7, zero in bit 6,
    /// auxiliary carry in bit 4, parity in bit 2, carry in bit 0. Bit 1 is
    /// always set and bits 3 and 5 are always clear.
    pub fn as_byte(&self) -> (byte: u8)
        ensures
            byte == self.spec_as_byte(),
            self.packed_in(byte),
    {
        let sign: u8 = if self.sign { 0x80 } else { 0 };
        let zero: u8 = if self.zero { 0x40 } else { 0 };
        let aux_carry: u8 = if self.aux_carry { 0x10 } else { 0 };
        let parity: u8 = if self.parity { 0x04 } else { 0 };
        let carry: u8 = if self.carry { 0x01 } else { 0 };
        let byte = 0x02 | sign | zero | aux_carry | parity | carry;
        assert(spec_bit(byte, 7) == (sign != 0) && spec_bit(byte, 6) == (zero != 0) && spec_bit(
            byte,
            4,
        ) == (aux_carry != 0) && spec_bit(byte, 2) == (parity != 0) && spec_bit(byte, 0) == (carry
            != 0) && spec_bit(byte, 1) && !spec_bit(byte, 3) && !spec_bit(byte, 5) && byte
            == spec_with_bit(
            spec_with_bit(
                spec_with_bit(
                    spec_with_bit(spec_with_bit(0x02, 7, sign != 0), 6, zero != 0),
                    4,
                    aux_carry != 0,
                ),
                2,
                parity != 0,
            ),
            0,
            carry != 0,
        )) by (bit_vector)
            requires
                byte == 0x02 | sign | zero | aux_carry | parity | carry,
                sign == 0x80 || sign == 0,
                zero == 0x40 || zero == 0,
                aux_carry == 0x10 || aux_carry == 0,
                parity == 0x04 || parity == 0,
                carry == 0x01 || carry == 0,
        ;
        byte
    }
}

} // verus!
