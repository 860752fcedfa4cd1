use vstd::prelude::*;
use super::Cpu;

verus! {

impl Cpu {
    /// Set SP to content of H:L.
    pub fn sphl(&mut self)
        requires
            old(self).pc < usize::MAX,
        ensures
            final(self)@ == old(self)@.sphl(),
            final(self).same_ports(old(self)),
    {
        self.sp = self.reg.hl();
        self.pc += 1;
    }
}

} // verus!
