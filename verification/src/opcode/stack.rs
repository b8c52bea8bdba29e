//! PUSH and POP.  The stack grows downward; POP AF masks the low nibble
//! of the flag byte to zero.

use vstd::prelude::*;

use crate::cpu::CPU;
use crate::cpu::CpuState;
use crate::cpu::spec_pop_word_state;
use crate::cpu::spec_pop_word_value;
use crate::cpu::spec_push_word;
use super::targets::Target16;
use super::targets::target16_store;
use super::targets::target16_value;

verus! {

/// The machine after PUSH rr.
pub open spec fn spec_push(s: CpuState, t: Target16) -> CpuState {
    spec_push_word(s, target16_value(s, t))
}

/// PUSH rr: push a register pair, high byte first.
pub fn push(cpu: &mut CPU, target: Target16) -> (cycles: u8)
    requires
        old(cpu).wf(),
        !(target is Immediate),
        !(target is MImmediate),
    ensures
        final(cpu).wf(),
        final(cpu)@ == spec_push(old(cpu)@, target),
        cycles == 16,
{
    let value = target.get_value(cpu);
    cpu.push_word(value);
    proof {
        assert(cpu@ =~~= spec_push(old(cpu)@, target));
    }
    16
}

/// The machine after POP rr: the word at SP lands in the pair, SP moves
/// up by two.  Popping into AF discards the low nibble of the flag byte.
pub open spec fn spec_pop(s: CpuState, t: Target16) -> CpuState {
    target16_store(spec_pop_word_state(s), t, spec_pop_word_value(s))
}

/// POP rr: pop a word into a register pair.
pub fn pop(cpu: &mut CPU, target: Target16) -> (cycles: u8)
    requires
        old(cpu).wf(),
        !(target is MHL),
        !(target is Immediate),
        !(target is MImmediate),
    ensures
        final(cpu).wf(),
        final(cpu)@ == spec_pop(old(cpu)@, target),
        cycles == 12,
{
    let value = cpu.pop_word();
    target.set_value(cpu, value);
    proof {
        assert(cpu@ =~~= spec_pop(old(cpu)@, target));
    }
    12
}

} // verus!
