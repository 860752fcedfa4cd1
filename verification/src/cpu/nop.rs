use vstd::prelude::*;
use super::Cpu;

verus! {

impl Cpu {
    /// No operation.
    pub fn nop(&mut self)
        requires
            old(self).pc < usize::MAX,
        ensures
            final(self)@ == old(self)@.nop(),
            final(self).same_ports(old(self)),
    {
        self.pc += 1;
    }
}

} // verus!
