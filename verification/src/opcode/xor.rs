//! XOR into A, as a free-standing entry point outside the logic family.

use vstd::prelude::*;

use crate::cpu::CPU;
use super::logic::spec_xor;
use super::targets::Target;
use super::targets::arith_cycles;

verus! {

/// XOR A,v: bitwise exclusive-or into A.
pub fn xor(cpu: &mut CPU, target: Target) -> (cycles: u8)
    requires
        old(cpu).wf(),
    ensures
        final(cpu).wf(),
        final(cpu)@ == spec_xor(old(cpu)@, target),
        cycles == arith_cycles(target),
{
    super::logic::xor(cpu, target)
}

} // verus!
