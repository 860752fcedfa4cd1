use vstd::prelude::*;
use super::Cpu;
use crate::error::{CpuError, PairUse};

verus! {

impl Cpu {
    /// Pop register pair from the stack. Selector 3 is not SP here: the
    /// flags and A are popped by [`Cpu::pop_psw`].
    pub fn pop(&mut self, rp: u8) -> (res: Result<(), CpuError>)
        requires
            old(self).pc < usize::MAX,
        ensures
            final(self).outcome_is(old(self), res, old(self)@.pop(rp)),
    {
        let sp = self.sp.wrapping_sub(2);
        let tmp = self.ram.dword(sp as usize)?;
        if rp >= 3 {
            return Err(CpuError::InvalidRegisterPairSelector(rp, PairUse::Pop));
        }
        self.sp = sp;
        self.set_pair(rp, tmp);
        self.pc += 1;
        Ok(())
    }

    /// Pop PSW from the stack: A from the low byte, the flags from the high
    /// byte with their fixed bits forced. All flags are affected.
    pub fn pop_psw(&mut self) -> (res: Result<(), CpuError>)
        requires
            old(self).pc < usize::MAX,
        ensures
            final(self).outcome_is(old(self), res, old(self)@.pop_psw()),
    {
        let tmp = self.internal_pop()?;
        self.reg.set_psw(tmp);
        self.pc += 1;
        Ok(())
    }
}

} // verus!
