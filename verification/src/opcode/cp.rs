//! CP: compare the operand with A.  The flags come out exactly as in SUB,
//! but A keeps its value.

use vstd::prelude::*;

use crate::cpu::CPU;
use crate::cpu::CpuState;
use crate::registers::Flags;
use super::add::sub_flags;
use super::targets::Target;
use super::targets::arith_cycles;
use super::targets::target_fetch;
use super::targets::target_value;

verus! {

/// The machine after CP A,v: the flags of the subtraction, A untouched.
pub open spec fn spec_cp(s: CpuState, t: Target) -> CpuState {
    let s1 = target_fetch(s, t);
    s1.with_flags(sub_flags(s.regs.a, target_value(s, t)))
}

/// CP A,v: set the flags of SUB A,v without storing the difference.
pub fn cp(cpu: &mut CPU, target: Target) -> (cycles: u8)
    requires
        old(cpu).wf(),
    ensures
        final(cpu).wf(),
        final(cpu)@ == spec_cp(old(cpu)@, target),
        cycles == arith_cycles(target),
{
    let value = target.get_value(cpu);
    let a = cpu.registers.a;
    cpu.registers.f = Flags {
        zero: a == value,
        subtract: true,
        half_carry: a % 0x10 < value % 0x10,
        carry: a < value,
    };
    proof {
        assert(cpu@ =~~= spec_cp(old(cpu)@, target));
    }
    if target.is_register() {
        4
    } else {
        8
    }
}

} // verus!
