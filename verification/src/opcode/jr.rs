//! The conditional relative jump, phrased over its own four-way condition
//! type.  The dispatcher uses the general form in the jump family; this
//! one serves callers that only branch on a flag.

use vstd::prelude::*;

use crate::cpu::CPU;
use crate::cpu::CpuState;
use crate::wadd16;
use super::add::sign_extend;

verus! {

/// The four flag conditions a relative jump can test.
#[derive(Clone, Copy, Debug, PartialEq, Eq, Structural)]
pub enum JumpRelativeCondition {
    NotZero,
    Zero,
    NotCarry,
    Carry,
}

/// Whether the condition holds of the current flags.
pub open spec fn jr_condition_holds(s: CpuState, c: JumpRelativeCondition) -> bool {
    match c {
        JumpRelativeCondition::NotZero => !s.regs.f.zero,
        JumpRelativeCondition::Zero => s.regs.f.zero,
        JumpRelativeCondition::NotCarry => !s.regs.f.carry,
        JumpRelativeCondition::Carry => s.regs.f.carry,
    }
}

/// The machine after the conditional relative jump: the offset byte is
/// always fetched; a taken jump adds it, sign-extended, to the PC after
/// the instruction.
pub open spec fn spec_jr_conditional(s: CpuState, c: JumpRelativeCondition) -> CpuState {
    let offset = s.read8(s.pc);
    let s1 = s.with_pc(wadd16(s.pc, 1));
    if jr_condition_holds(s, c) {
        s1.with_pc(wadd16(s1.pc, sign_extend(offset)))
    } else {
        s1
    }
}

/// Jump by a signed byte relative to the next instruction, if the flag
/// condition holds.
pub fn jr(cpu: &mut CPU, condition: JumpRelativeCondition) -> (cycles: u8)
    requires
        old(cpu).wf(),
    ensures
        final(cpu).wf(),
        final(cpu)@ == spec_jr_conditional(old(cpu)@, condition),
        cycles == (if jr_condition_holds(old(cpu)@, condition) {
            12u8
        } else {
            8u8
        }),
{
    let offset = cpu.next_byte();
    let taken = match condition {
        JumpRelativeCondition::NotZero => !cpu.registers.f.zero(),
        JumpRelativeCondition::Zero => cpu.registers.f.zero(),
        JumpRelativeCondition::NotCarry => !cpu.registers.f.carry(),
        JumpRelativeCondition::Carry => cpu.registers.f.carry(),
    };
    if taken {
        let extended: u16 = if offset < 0x80 {
            offset as u16
        } else {
            0xFF00 + offset as u16
        };
        cpu.pc = cpu.pc.wrapping_add(extended);
    }
    proof {
        assert(cpu@ =~~= spec_jr_conditional(old(cpu)@, condition));
    }
    if taken {
        12
    } else {
        8
    }
}

} // verus!
