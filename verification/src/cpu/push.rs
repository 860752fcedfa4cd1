use vstd::prelude::*;
use super::Cpu;
use crate::error::{CpuError, PairUse};

verus! {

impl Cpu {
    /// Push register pair on the stack. Selector 3 is not SP here: the flags
    /// and A are pushed by [`Cpu::push_psw`].
    pub fn push(&mut self, rp: u8) -> (res: Result<(), CpuError>)
        requires
            old(self).pc < usize::MAX,
        ensures
            final(self).outcome_is(old(self), res, old(self)@.push(rp)),
    {
        if rp >= 3 {
            return Err(CpuError::InvalidRegisterPairSelector(rp, PairUse::Push));
        }
        let rp = self.pair(rp);
        self.internal_push(rp)?;
        self.pc += 1;
        Ok(())
    }

    /// Push PSW on the stack: A as the low byte, the flags as the high byte.
    pub fn push_psw(&mut self) -> (res: Result<(), CpuError>)
        requires
            old(self).pc < usize::MAX,
        ensures
            final(self).outcome_is(old(self), res, old(self)@.push_psw()),
    {
        self.internal_push(self.reg.psw())?;
        self.pc += 1;
        Ok(())
    }
}

} // verus!
