use vstd::prelude::*;
use super::Cpu;
use crate::error::CpuError;

verus! {

impl Cpu {
    /// Move register to register: `a` receives `b`. On either side selector 6
    /// stands for the memory byte that HL points at.
    pub fn mov(&mut self, a: usize, b: usize) -> (res: Result<(), CpuError>)
        requires
            a < 8,
            b < 8,
            old(self).pc < usize::MAX,
        ensures
            final(self).outcome_is(old(self), res, old(self)@.mov(a, b)),
    {
        let b = self.operand(b)?;
        self.set_operand(a, b)?;
        self.pc += 1;
        Ok(())
    }
}

} // verus!
