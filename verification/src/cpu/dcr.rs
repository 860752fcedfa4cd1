use vstd::prelude::*;
use super::Cpu;
use crate::error::CpuError;

verus! {

impl Cpu {
    /// Decrement register. Updates the flags zero, sign and parity; the carry
    /// is left as it is. Selector 6 decrements the memory byte that HL
    /// points at.
    pub fn dcr(&mut self, r: usize) -> (res: Result<(), CpuError>)
        requires
            r < 8,
            old(self).pc < usize::MAX,
        ensures
            final(self).outcome_is(old(self), res, old(self)@.dcr(r)),
    {
        let value = self.operand(r)?;
        self.count(r, value.wrapping_sub(1))
    }
}

} // verus!
