//! EI and DI.  EI arms the documented one-instruction delay; DI clears
//! the interrupt master enable at once.

use vstd::prelude::*;

use crate::cpu::CPU;
use crate::cpu::CpuState;

verus! {

/// The machine after EI or DI: EI arms the two-tick delay counter that
/// the step prologue counts down, so IME rises only after the following
/// instruction retires; DI clears IME immediately.
pub open spec fn spec_enable_interrupt(s: CpuState, enabled: bool) -> CpuState {
    if enabled {
        CpuState { ei_delay: 2, ..s }
    } else {
        CpuState { ime: false, ..s }
    }
}

/// EI (`enabled`) or DI (`!enabled`).
pub fn enable_interrupt(cpu: &mut CPU, enabled: bool) -> (cycles: u8)
    requires
        old(cpu).wf(),
    ensures
        final(cpu).wf(),
        final(cpu)@ == spec_enable_interrupt(old(cpu)@, enabled),
        cycles == 4,
{
    if enabled {
        cpu.interrupt_enable_counter = 2;
    } else {
        cpu.ime = false;
    }
    proof {
        assert(cpu@ =~~= spec_enable_interrupt(old(cpu)@, enabled));
    }
    4
}

} // verus!
