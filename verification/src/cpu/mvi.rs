use vstd::prelude::*;
use super::Cpu;
use crate::error::CpuError;

verus! {

impl Cpu {
    /// Move immediate to register. Selector 6 stands for the memory byte
    /// that HL points at.
    pub fn mvi(&mut self, a: usize, val: u8) -> (res: Result<(), CpuError>)
        requires
            a < 8,
            old(self).pc + 2 <= usize::MAX,
        ensures
            final(self).outcome_is(old(self), res, old(self)@.mvi(a, val)),
    {
        self.set_operand(a, val)?;
        self.pc += 2;
        Ok(())
    }
}

} // verus!
