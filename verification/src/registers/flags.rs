//! The flags byte: five condition bits and three bits that never change.

use vstd::prelude::*;
use bit_field::BitField;
use super::Registers;

verus! {

/// The condition bits that an instruction may ask to have recomputed.
#[derive(Clone, Copy, Debug, Eq, PartialEq)]
pub enum Flags {
    Sign,
    Zero,
    Parity,
    Carry,
    AuxCarry,
}

/// Position of the sign flag in the flags byte.
pub const SIGN_BIT: usize = 7;

/// Position of the zero flag in the flags byte.
pub const ZERO_BIT: usize = 6;

/// Position of the auxiliary-carry flag in the flags byte.
pub const AUX_CARRY_BIT: usize = 4;

/// Position of the parity flag in the flags byte.
pub const PARITY_BIT: usize = 2;

/// Position of the carry flag in the flags byte.
pub const CARRY_BIT: usize = 0;

/// Whether bit `bit` of `byte` is set; bit 0 is the least significant.
pub open spec fn spec_bit(byte: u8, bit: usize) -> bool {
    byte & (1u8 << bit) != 0
}

/// `byte` with bit `bit` set to `value` and every other bit as it was.
pub open spec fn spec_with_bit(byte: u8, bit: usize, value: bool) -> u8 {
    if value {
        byte | (1u8 << bit)
    } else {
        byte & !(1u8 << bit)
    }
}

/// The fixed-bit policy: bit 1 always reads as one, bits 3 and 5 as zero.
pub open spec fn spec_fix_flags(f: u8) -> u8 {
    spec_with_bit(spec_with_bit(spec_with_bit(f, 3, false), 5, false), 1, true)
}

/// The flags byte after a write of `value` to the flag at `bit`.
pub open spec fn spec_with_flag(f: u8, bit: usize, value: bool) -> u8 {
    spec_fix_flags(spec_with_bit(f, bit, value))
}

/// How many bits of `val` are set.
pub open spec fn spec_ones(val: u8) -> nat {
    ((val & 1) + ((val >> 1) & 1) + ((val >> 2) & 1) + ((val >> 3) & 1) + ((val >> 4) & 1) + ((val
        >> 5) & 1) + ((val >> 6) & 1) + ((val >> 7) & 1)) as nat
}

/// Even parity: an even number of bits of `val` are set.
pub open spec fn spec_even_parity(val: u8) -> bool {
    spec_ones(val) % 2 == 0
}

/// Whether `bit` is the position of one of the five condition flags.
pub open spec fn is_flag_bit(bit: usize) -> bool {
    bit == SIGN_BIT || bit == ZERO_BIT || bit == AUX_CARRY_BIT || bit == PARITY_BIT || bit
        == CARRY_BIT
}

/// The fixed-bit policy leaves bit 1 set and bits 3 and 5 clear, keeps every
/// condition flag, and changes nothing when applied a second time.
pub proof fn lemma_fix_flags(f: u8)
    ensures
        spec_bit(spec_fix_flags(f), 1),
        !spec_bit(spec_fix_flags(f), 3),
        !spec_bit(spec_fix_flags(f), 5),
        spec_fix_flags(f) == (f & 0xd7) | 0x02,
        spec_fix_flags(spec_fix_flags(f)) == spec_fix_flags(f),
        forall|bit: usize| is_flag_bit(bit) ==> spec_bit(spec_fix_flags(f), bit) == spec_bit(f, bit),
{
    lemma_fix_flags_bits(f);
    assert forall|bit: usize| is_flag_bit(bit) implies spec_bit(spec_fix_flags(f), bit)
        == spec_bit(f, bit) by {
        lemma_fix_keeps_flag(f, bit);
    }
}

proof fn lemma_fix_flags_bits(f: u8)
    by (bit_vector)
    ensures
        spec_bit(spec_fix_flags(f), 1),
        !spec_bit(spec_fix_flags(f), 3),
        !spec_bit(spec_fix_flags(f), 5),
        spec_fix_flags(f) == (f & 0xd7) | 0x02,
        spec_fix_flags(spec_fix_flags(f)) == spec_fix_flags(f),
{
}

proof fn lemma_fix_keeps_flag(f: u8, bit: usize)
    by (bit_vector)
    requires
        bit == 7 || bit == 6 || bit == 4 || bit == 2 || bit == 0,
    ensures
        spec_bit(spec_fix_flags(f), bit) == spec_bit(f, bit),
{
}

/// A write to one condition flag is read back from that flag, leaves the other
/// four as they were, and leaves the fixed bits at their fixed values.
pub proof fn lemma_flag_write(f: u8, bit: usize, value: bool)
    requires
        is_flag_bit(bit),
    ensures
        spec_bit(spec_with_flag(f, bit, value), bit) == value,
        forall|other: usize|
            is_flag_bit(other) && other != bit ==> spec_bit(spec_with_flag(f, bit, value), other)
                == spec_bit(f, other),
        spec_fix_flags(spec_with_flag(f, bit, value)) == spec_with_flag(f, bit, value),
{
    lemma_flag_write_same(f, bit, value);
    assert forall|other: usize| is_flag_bit(other) && other != bit implies spec_bit(
        spec_with_flag(f, bit, value),
        other,
    ) == spec_bit(f, other) by {
        lemma_flag_write_other(f, bit, value, other);
    }
}

proof fn lemma_flag_write_same(f: u8, bit: usize, value: bool)
    by (bit_vector)
    requires
        bit == 7 || bit == 6 || bit == 4 || bit == 2 || bit == 0,
    ensures
        spec_bit(spec_with_flag(f, bit, value), bit) == value,
        spec_fix_flags(spec_with_flag(f, bit, value)) == spec_with_flag(f, bit, value),
{
}

proof fn lemma_flag_write_other(f: u8, bit: usize, value: bool, other: usize)
    by (bit_vector)
    requires
        bit == 7 || bit == 6 || bit == 4 || bit == 2 || bit == 0,
        other == 7 || other == 6 || other == 4 || other == 2 || other == 0,
        other != bit,
    ensures
        spec_bit(spec_with_flag(f, bit, value), other) == spec_bit(f, other),
{
}

/// Reads one bit through `BitField::get_bit` of the bit_field crate, which
/// masks the byte with `1 << bit` and tests the result against zero. It panics
/// for a bit index of 8 or more, which `requires` leaves out.
#[verifier::external_body]
fn get_bit(byte: u8, bit: usize) -> (r: bool)
    requires
        bit < 8,
    ensures
        r == spec_bit(byte, bit),
{
    byte.get_bit(bit)
}

/// Writes one bit through `BitField::set_bit` of the bit_field crate, which
/// ors the byte with `1 << bit` for `true` and ands it with the complement for
/// `false`. It panics for a bit index of 8 or more, which `requires` leaves out.
#[verifier::external_body]
fn set_bit(byte: u8, bit: usize, value: bool) -> (r: u8)
    requires
        bit < 8,
    ensures
        r == spec_with_bit(byte, bit, value),
{
    let mut out = byte;
    out.set_bit(bit, value);
    out
}

/// Sets the bits of a flags byte that no instruction controls to their fixed
/// values: bits 3 and 5 are always 0, bit 1 is always 1.
pub(super) fn _fix_flags(f: u8) -> (r: u8)
    ensures
        r == spec_fix_flags(f),
{
    let f = set_bit(f, 3, false);
    let f = set_bit(f, 5, false);
    set_bit(f, 1, true)
}

/// The eight bits of `val` folded into bit 0 by exclusive or.
spec fn spec_folded(val: u8) -> u8 {
    let halves = val ^ (val >> 4);
    let quarters = halves ^ (halves >> 2);
    quarters ^ (quarters >> 1)
}

/// The exclusive or of all bits is 0 where an even number of them are set.
proof fn lemma_folded_parity(val: u8)
    by (bit_vector)
    ensures
        (spec_folded(val) & 1 == 0) == spec_even_parity(val),
{
}

/// Whether an even number of bits of `val` are set.
pub fn even_parity(val: u8) -> (even: bool)
    ensures
        even == spec_even_parity(val),
{
    let halves = val ^ (val >> 4);
    let quarters = halves ^ (halves >> 2);
    let folded = quarters ^ (quarters >> 1);
    proof {
        lemma_folded_parity(val);
    }
    folded & 1 == 0
}

impl Registers {
    /// The sign flag: bit 7 of the flags byte.
    pub open spec fn spec_sign(self) -> bool {
        spec_bit(self.flags, SIGN_BIT)
    }

    /// The zero flag: bit 6 of the flags byte.
    pub open spec fn spec_zero(self) -> bool {
        spec_bit(self.flags, ZERO_BIT)
    }

    /// The auxiliary-carry flag: bit 4 of the flags byte.
    pub open spec fn spec_half_carry(self) -> bool {
        spec_bit(self.flags, AUX_CARRY_BIT)
    }

    /// The parity flag: bit 2 of the flags byte.
    pub open spec fn spec_parity(self) -> bool {
        spec_bit(self.flags, PARITY_BIT)
    }

    /// The carry flag: bit 0 of the flags byte.
    pub open spec fn spec_carry(self) -> bool {
        spec_bit(self.flags, CARRY_BIT)
    }

    /// This register file after a write of `value` to the flag at `bit`.
    pub open spec fn spec_set_flag(self, bit: usize, value: bool) -> Registers {
        Registers { flags: spec_with_flag(self.flags, bit, value), ..self }
    }

    /// This register file after the flags named in `updates` have been
    /// recomputed from the result byte `val` and the carry `carry`: sign is bit
    /// 7 of `val`, zero says that `val` is 0, parity that `val` has an even
    /// number of set bits, carry is `carry`. A flag that is not named keeps its
    /// value, and so does the auxiliary carry even when it is named.
    pub open spec fn spec_update_flags(self, val: u8, carry: bool, updates: Seq<Flags>) -> Registers {
        let r = if updates.contains(Flags::Sign) {
            self.spec_set_flag(SIGN_BIT, spec_bit(val, 7))
        } else {
            self
        };
        let r = if updates.contains(Flags::Zero) {
            r.spec_set_flag(ZERO_BIT, val == 0)
        } else {
            r
        };
        let r = if updates.contains(Flags::Parity) {
            r.spec_set_flag(PARITY_BIT, spec_even_parity(val))
        } else {
            r
        };
        if updates.contains(Flags::Carry) {
            r.spec_set_flag(CARRY_BIT, carry)
        } else {
            r
        }
    }

    /// This register file after sign, zero and parity have been recomputed
    /// from the result byte `val`. Carry and auxiliary carry keep their values.
    pub open spec fn spec_result_flags(self, val: u8) -> Registers {
        self.spec_set_flag(SIGN_BIT, spec_bit(val, 7)).spec_set_flag(
            ZERO_BIT,
            val == 0,
        ).spec_set_flag(PARITY_BIT, spec_even_parity(val))
    }

    /// This register file after sign, zero and parity have been recomputed
    /// from the result byte `val` and carry has been set to `carry`. The
    /// auxiliary carry keeps its value.
    pub open spec fn spec_result_flags_carry(self, val: u8, carry: bool) -> Registers {
        self.spec_result_flags(val).spec_set_flag(CARRY_BIT, carry)
    }

    /// Forces the fixed bits of the flags byte.
    pub(super) fn fix_flags(&mut self)
        ensures
            *final(self) == (Registers { flags: spec_fix_flags(old(self).flags), ..*old(self) }),
    {
        self.flags = _fix_flags(self.flags);
    }

    /// Returns true if the sign flag is set.
    pub fn sign(&self) -> (set: bool)
        ensures
            set == self.spec_sign(),
    {
        get_bit(self.flags, SIGN_BIT)
    }

    /// Sets the sign flag.
    pub fn set_sign(&mut self, value: bool)
        ensures
            *final(self) == old(self).spec_set_flag(SIGN_BIT, value),
    {
        self.flags = _fix_flags(set_bit(self.flags, SIGN_BIT, value));
    }

    /// Returns true if the zero flag is set.
    pub fn zero(&self) -> (set: bool)
        ensures
            set == self.spec_zero(),
    {
        get_bit(self.flags, ZERO_BIT)
    }

    /// Sets the zero flag.
    pub fn set_zero(&mut self, value: bool)
        ensures
            *final(self) == old(self).spec_set_flag(ZERO_BIT, value),
    {
        self.flags = _fix_flags(set_bit(self.flags, ZERO_BIT, value));
    }

    /// Returns true if the auxiliary-carry flag is set.
    pub fn half_carry(&self) -> (set: bool)
        ensures
            set == self.spec_half_carry(),
    {
        get_bit(self.flags, AUX_CARRY_BIT)
    }

    /// Sets the auxiliary-carry flag.
    pub fn set_half_carry(&mut self, value: bool)
        ensures
            *final(self) == old(self).spec_set_flag(AUX_CARRY_BIT, value),
    {
        self.flags = _fix_flags(set_bit(self.flags, AUX_CARRY_BIT, value));
    }

    /// Returns true if the parity flag is set.
    pub fn parity(&self) -> (set: bool)
        ensures
            set == self.spec_parity(),
    {
        get_bit(self.flags, PARITY_BIT)
    }

    /// Sets the parity flag.
    pub fn set_parity(&mut self, value: bool)
        ensures
            *final(self) == old(self).spec_set_flag(PARITY_BIT, value),
    {
        self.flags = _fix_flags(set_bit(self.flags, PARITY_BIT, value));
    }

    /// Returns true if the carry flag is set.
    pub fn carry(&self) -> (set: bool)
        ensures
            set == self.spec_carry(),
    {
        get_bit(self.flags, CARRY_BIT)
    }

    /// Sets the carry flag.
    pub fn set_carry(&mut self, value: bool)
        ensures
            *final(self) == old(self).spec_set_flag(CARRY_BIT, value),
    {
        self.flags = _fix_flags(set_bit(self.flags, CARRY_BIT, value));
    }

    /// Updates the flags named in `updates` from the result of an arithmetic
    /// operation, given as the result byte and the carry out of it.
    pub fn update_flags(&mut self, res: (u8, bool), updates: &[Flags])
        ensures
            *final(self) == old(self).spec_update_flags(res.0, res.1, updates@),
    {
        let (val, overflow) = res;
        let n = updates.len();
        let mut i: usize = 0;
        while i < n
            invariant
                i <= n,
                n == updates@.len(),
                *self == old(self).spec_update_flags(val, overflow, updates@.take(i as int)),
            decreases n - i,
        {
            proof {
                lemma_update_step(*old(self), val, overflow, updates@.take(i as int), updates@[i as int]);
                assert(updates@.take(i + 1) =~= updates@.take(i as int).push(updates@[i as int]));
                assert((val & 0x80 != 0) == spec_bit(val, 7)) by (bit_vector);
            }
            match updates[i] {
                Flags::Sign => self.set_sign(val & 0x80 != 0),
                Flags::Zero => self.set_zero(val == 0),
                Flags::Parity => self.set_parity(even_parity(val)),
                Flags::Carry => self.set_carry(overflow),
                Flags::AuxCarry => (),
            }
            i += 1;
        }
        assert(updates@.take(n as int) =~= updates@);
    }
}

/// A list that names sign, zero and parity recomputes all three from the
/// result, and the carry as well if it names the carry.
pub proof fn lemma_update_flags_named(r: Registers, val: u8, carry: bool, updates: Seq<Flags>)
    requires
        updates.contains(Flags::Sign),
        updates.contains(Flags::Zero),
        updates.contains(Flags::Parity),
    ensures
        updates.contains(Flags::Carry) ==> r.spec_update_flags(val, carry, updates)
            == r.spec_result_flags_carry(val, carry),
        !updates.contains(Flags::Carry) ==> r.spec_update_flags(val, carry, updates)
            == r.spec_result_flags(val),
{
}

/// One more flag at the end of the list is one more write to the flags byte.
proof fn lemma_update_step(r: Registers, val: u8, carry: bool, done: Seq<Flags>, next: Flags)
    ensures
        r.spec_update_flags(val, carry, done.push(next)) == match next {
            Flags::Sign => r.spec_update_flags(val, carry, done).spec_set_flag(
                SIGN_BIT,
                spec_bit(val, 7),
            ),
            Flags::Zero => r.spec_update_flags(val, carry, done).spec_set_flag(ZERO_BIT, val == 0),
            Flags::Parity => r.spec_update_flags(val, carry, done).spec_set_flag(
                PARITY_BIT,
                spec_even_parity(val),
            ),
            Flags::Carry => r.spec_update_flags(val, carry, done).spec_set_flag(CARRY_BIT, carry),
            Flags::AuxCarry => r.spec_update_flags(val, carry, done),
        },
{
    let all = done.push(next);
    assert forall|f: Flags| all.contains(f) <==> (done.contains(f) || f == next) by {
        if done.contains(f) {
            let k = choose|k: int| 0 <= k < done.len() && done[k] == f;
            assert(all[k] == f);
        }
        if f == next {
            assert(all[done.len() as int] == f);
        }
    }
    let s = spec_bit(val, 7);
    let z = val == 0;
    let p = spec_even_parity(val);
    let (hs, hz) = (done.contains(Flags::Sign), done.contains(Flags::Zero));
    let (hp, hc) = (done.contains(Flags::Parity), done.contains(Flags::Carry));
    lemma_write_after_writes(r.flags, hs, s, hz, z, hp, p, hc, carry);
    assert(r.spec_update_flags(val, carry, done).flags == spec_writes(
        r.flags,
        hs,
        s,
        hz,
        z,
        hp,
        p,
        hc,
        carry,
    ));
}

/// The flags byte after the writes that are asked for, made in a fixed order.
spec fn spec_writes(
    f: u8,
    hs: bool,
    s: bool,
    hz: bool,
    z: bool,
    hp: bool,
    p: bool,
    hc: bool,
    c: bool,
) -> u8 {
    let f = if hs {
        spec_with_flag(f, 7, s)
    } else {
        f
    };
    let f = if hz {
        spec_with_flag(f, 6, z)
    } else {
        f
    };
    let f = if hp {
        spec_with_flag(f, 2, p)
    } else {
        f
    };
    if hc {
        spec_with_flag(f, 0, c)
    } else {
        f
    }
}

/// A write made after a series of writes is the series with that write in it.
proof fn lemma_write_after_writes(
    f: u8,
    hs: bool,
    s: bool,
    hz: bool,
    z: bool,
    hp: bool,
    p: bool,
    hc: bool,
    c: bool,
)
    by (bit_vector)
    ensures
        spec_with_flag(spec_writes(f, hs, s, hz, z, hp, p, hc, c), 7, s) == spec_writes(
            f,
            true,
            s,
            hz,
            z,
            hp,
            p,
            hc,
            c,
        ),
        spec_with_flag(spec_writes(f, hs, s, hz, z, hp, p, hc, c), 6, z) == spec_writes(
            f,
            hs,
            s,
            true,
            z,
            hp,
            p,
            hc,
            c,
        ),
        spec_with_flag(spec_writes(f, hs, s, hz, z, hp, p, hc, c), 2, p) == spec_writes(
            f,
            hs,
            s,
            hz,
            z,
            true,
            p,
            hc,
            c,
        ),
        spec_with_flag(spec_writes(f, hs, s, hz, z, hp, p, hc, c), 0, c) == spec_writes(
            f,
            hs,
            s,
            hz,
            z,
            hp,
            p,
            true,
            c,
        ),
{
}

} // verus!
