//! The flat, byte-addressable memory of the machine. Its size is fixed once it
//! is built; every access outside of it is reported, never performed.

use vstd::prelude::*;
use crate::error::CpuError;
use crate::word::{pair_of, spec_high, spec_low, spec_pair_of, split};

verus! {

/// The word stored at `idx`: the byte at `idx` is its low byte, the byte at
/// `idx + 1` its high byte.
pub open spec fn spec_dword(mem: Seq<u8>, idx: int) -> u16 {
    spec_pair_of(mem[idx + 1], mem[idx])
}

/// `mem` after `value` has been stored at `idx`, low byte first.
pub open spec fn spec_dword_set(mem: Seq<u8>, idx: int, value: u16) -> Seq<u8> {
    mem.update(idx, spec_low(value)).update(idx + 1, spec_high(value))
}

/// Whether both bytes of the word at `idx` lie inside `mem`.
pub open spec fn holds_dword(mem: Seq<u8>, idx: int) -> bool {
    0 <= idx && idx + 1 < mem.len()
}

/// The first address of the word at `idx` that lies outside `mem`, for a word
/// that does not fit.
pub open spec fn spec_dword_fault(mem: Seq<u8>, idx: int) -> int {
    if idx < mem.len() {
        idx + 1
    } else {
        idx
    }
}

/// The image of a program loaded at `base_offset`: zeroes below the offset,
/// then the program's bytes.
pub open spec fn spec_load(bytes: Seq<u8>, base_offset: nat) -> Seq<u8> {
    Seq::new(base_offset, |i: int| 0u8) + bytes
}

/// A memory of fixed size, addressed from 0.
#[derive(Debug)]
pub struct Memory {
    vec: Vec<u8>,
}

impl Clone for Memory {
    fn clone(&self) -> (copy: Self)
        ensures
            copy@ == self@,
    {
        let vec = self.vec.clone();
        Memory { vec }
    }
}

impl View for Memory {
    type V = Seq<u8>;

    closed spec fn view(&self) -> Seq<u8> {
        self.vec@
    }
}

impl Memory {
    /// Every address inside a memory fits the machine's address type.
    pub proof fn lemma_size_fits(&self)
        ensures
            self@.len() <= usize::MAX,
    {
        assert(self.vec@.len() == self.vec.len());
    }

    /// A memory that holds exactly the bytes of `vec`, the first at address 0.
    pub fn from_raw(vec: Vec<u8>) -> (m: Self)
        ensures
            m@ == vec@,
    {
        Self { vec }
    }

    /// A memory with `bytes` placed at `base_offset` and zeroes below it. Its
    /// size is `base_offset` plus the length of `bytes`, which has to be a
    /// size that the machine can address.
    pub fn load(bytes: Vec<u8>, base_offset: usize) -> (m: Self)
        requires
            base_offset + bytes@.len() <= usize::MAX,
        ensures
            m@ == spec_load(bytes@, base_offset as nat),
            m@.len() == base_offset + bytes@.len(),
    {
        let ghost program = bytes@;
        let mut bytes = bytes;
        let mut vec = vec![0u8; base_offset];
        vec.append(&mut bytes);
        assert(vec@ =~= spec_load(program, base_offset as nat));
        Self { vec }
    }

    /// The number of bytes in the memory.
    pub fn len(&self) -> (n: usize)
        ensures
            n == self@.len(),
    {
        self.vec.len()
    }

    /// The whole memory as a slice, address 0 first.
    pub fn as_slice(&self) -> (bytes: &[u8])
        ensures
            bytes@ == self@,
    {
        self.vec.as_slice()
    }

    /// Reads the byte at `addr`.
    pub fn read(&self, addr: usize) -> (r: Result<u8, CpuError>)
        ensures
            addr < self@.len() ==> r == Ok::<u8, CpuError>(self@[addr as int]),
            addr >= self@.len() ==> r == Err::<u8, CpuError>(CpuError::OutOfBounds(addr)),
    {
        if addr < self.vec.len() {
            Ok(self.vec[addr])
        } else {
            Err(CpuError::OutOfBounds(addr))
        }
    }

    /// Writes `value` at `addr`. A write outside the memory changes nothing.
    pub fn write(&mut self, addr: usize, value: u8) -> (r: Result<(), CpuError>)
        ensures
            addr < old(self)@.len() ==> r == Ok::<(), CpuError>(()) && final(self)@ == old(self)@.update(
                addr as int,
                value,
            ),
            addr >= old(self)@.len() ==> r == Err::<(), CpuError>(CpuError::OutOfBounds(addr))
                && *final(self) == *old(self),
    {
        if addr < self.vec.len() {
            self.vec[addr] = value;
            Ok(())
        } else {
            Err(CpuError::OutOfBounds(addr))
        }
    }

    /// Reads the 16-bit word at `idx`: the byte at `idx` is the low byte, the
    /// byte at `idx + 1` the high byte.
    pub fn dword(&self, idx: usize) -> (r: Result<u16, CpuError>)
        ensures
            holds_dword(self@, idx as int) ==> r == Ok::<u16, CpuError>(spec_dword(self@, idx as int)),
            !holds_dword(self@, idx as int) ==> r == Err::<u16, CpuError>(
                CpuError::OutOfBounds(spec_dword_fault(self@, idx as int) as usize),
            ),
    {
        let len = self.vec.len();
        if idx >= len {
            Err(CpuError::OutOfBounds(idx))
        } else if idx + 1 >= len {
            Err(CpuError::OutOfBounds(idx + 1))
        } else {
            Ok(pair_of(self.vec[idx + 1], self.vec[idx]))
        }
    }

    /// Writes the 16-bit word `value` at `idx`: its low byte at `idx`, its
    /// high byte at `idx + 1`. A word that does not fit changes nothing.
    pub fn dword_set(&mut self, idx: usize, value: u16) -> (r: Result<(), CpuError>)
        ensures
            holds_dword(old(self)@, idx as int) ==> r == Ok::<(), CpuError>(()) && final(self)@
                == spec_dword_set(old(self)@, idx as int, value),
            !holds_dword(old(self)@, idx as int) ==> r == Err::<(), CpuError>(
                CpuError::OutOfBounds(spec_dword_fault(old(self)@, idx as int) as usize),
            ) && *final(self) == *old(self),
    {
        let len = self.vec.len();
        if idx >= len {
            Err(CpuError::OutOfBounds(idx))
        } else if idx + 1 >= len {
            Err(CpuError::OutOfBounds(idx + 1))
        } else {
            let (hi, lo) = split(value);
            self.vec[idx] = lo;
            self.vec[idx + 1] = hi;
            Ok(())
        }
    }
}

} // verus!
