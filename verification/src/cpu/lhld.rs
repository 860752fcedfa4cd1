use vstd::prelude::*;
use super::Cpu;
use crate::error::CpuError;

verus! {

impl Cpu {
    /// Load H:L from memory: L from mem[d16], H from mem[d16 + 1].
    pub fn lhld(&mut self, d16: u16) -> (res: Result<(), CpuError>)
        requires
            old(self).pc + 3 <= usize::MAX,
        ensures
            final(self).outcome_is(old(self), res, old(self)@.lhld(d16)),
    {
        let value = self.ram.dword(d16 as usize)?;
        self.reg.hl_set(value);
        self.pc += 3;
        Ok(())
    }
}

} // verus!
