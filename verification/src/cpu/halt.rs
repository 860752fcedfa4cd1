use vstd::prelude::*;
use super::Cpu;
use crate::error::CpuError;

verus! {

impl Cpu {
    /// Halt processor. The machine stays as it is, at the HALT instruction.
    pub fn halt(&mut self) -> (res: Result<(), CpuError>)
        ensures
            final(self).outcome_is(old(self), res, old(self)@.halt()),
    {
        Err(CpuError::Halted)
    }
}

} // verus!
