//! The load family: LD in its 8-bit and 16-bit forms, the post-decrement
//! and post-increment HL forms LDD and LDI, and the high-page form LDH.

use vstd::prelude::*;

use crate::cpu::CPU;
use crate::cpu::CpuState;
use crate::registers::Registers;
use crate::wsub16;
use crate::wadd16;
use super::targets::Target;
use super::targets::Target16;
use super::targets::target16_fetch;
use super::targets::target16_store;
use super::targets::target16_value;
use super::targets::target_cost;
use super::targets::target_fetch;
use super::targets::target_store;
use super::targets::target_value;

verus! {

/// The machine after LD t,f: the source byte lands in the destination;
/// PC moves past the immediates of both operands.
pub open spec fn spec_ld(s: CpuState, t: Target, f: Target) -> CpuState {
    let v = target_value(s, f);
    let s1 = target_fetch(s, f);
    target_store(s1, t, v)
}

/// Cycle cost of an 8-bit load: the base fetch plus the cost of reaching
/// each operand.
pub open spec fn ld_cycles(t: Target, f: Target) -> u8 {
    (4 + target_cost(t) + target_cost(f)) as u8
}

/// LD t,f: copy the source operand into the destination operand.
pub fn ld(cpu: &mut CPU, target: Target, from_target: Target) -> (cycles: u8)
    requires
        old(cpu).wf(),
        !(target is Immediate),
    ensures
        final(cpu).wf(),
        final(cpu)@ == spec_ld(old(cpu)@, target, from_target),
        cycles == ld_cycles(target, from_target),
{
    let value = from_target.get_value(cpu);
    target.set_value(cpu, value);
    proof {
        assert(cpu@ =~~= spec_ld(old(cpu)@, target, from_target));
    }
    4 + target.cost() + from_target.cost()
}

/// The machine after LD16 t,f.
pub open spec fn spec_ld16(s: CpuState, t: Target16, f: Target16) -> CpuState {
    let v = target16_value(s, f);
    let s1 = target16_fetch(s, f);
    target16_store(s1, t, v)
}

/// Cycle cost of a 16-bit load: 12 for an immediate into a pair, 20 for
/// SP into an absolute cell, 8 for HL into SP.
pub open spec fn ld16_cycles(t: Target16, f: Target16) -> u8 {
    if t is MImmediate {
        20
    } else if f is HL {
        8
    } else {
        12
    }
}

/// LD16 t,f: copy the 16-bit source operand into the destination operand.
pub fn ld16(cpu: &mut CPU, target: Target16, from_target: Target16) -> (cycles: u8)
    requires
        old(cpu).wf(),
        !(target is MHL),
        !(target is Immediate),
    ensures
        final(cpu).wf(),
        final(cpu)@ == spec_ld16(old(cpu)@, target, from_target),
        cycles == ld16_cycles(target, from_target),
{
    let value = from_target.get_value(cpu);
    target.set_value(cpu, value);
    proof {
        assert(cpu@ =~~= spec_ld16(old(cpu)@, target, from_target));
    }
    match target {
        Target16::MImmediate => 20,
        _ => match from_target {
            Target16::HL => 8,
            _ => 12,
        },
    }
}

/// The machine after LDD t,f: the load, then HL moves down by one.
pub open spec fn spec_ldd(s: CpuState, t: Target, f: Target) -> CpuState {
    let s1 = spec_ld(s, t, f);
    let hl = wsub16(s1.regs.hl_spec(), 1);
    s1.with_regs(
        Registers { h: (hl / 0x100) as u8, l: (hl % 0x100) as u8, ..s1.regs },
    )
}

/// LDD t,f: copy the source into the destination, then decrement HL.
pub fn ldd(cpu: &mut CPU, target: Target, from: Target) -> (cycles: u8)
    requires
        old(cpu).wf(),
        !(target is Immediate),
    ensures
        final(cpu).wf(),
        final(cpu)@ == spec_ldd(old(cpu)@, target, from),
        cycles == ld_cycles(target, from),
{
    let value = from.get_value(cpu);
    target.set_value(cpu, value);
    let hl = cpu.registers.hl().wrapping_sub(1);
    cpu.registers.set_hl(hl);
    proof {
        assert(cpu@ =~~= spec_ldd(old(cpu)@, target, from));
    }
    4 + target.cost() + from.cost()
}

/// The machine after LDI t,f: the load, then HL moves up by one.
pub open spec fn spec_ldi(s: CpuState, t: Target, f: Target) -> CpuState {
    let s1 = spec_ld(s, t, f);
    let hl = wadd16(s1.regs.hl_spec(), 1);
    s1.with_regs(
        Registers { h: (hl / 0x100) as u8, l: (hl % 0x100) as u8, ..s1.regs },
    )
}

/// LDI t,f: copy the source into the destination, then increment HL.
pub fn ldi(cpu: &mut CPU, target: Target, from: Target) -> (cycles: u8)
    requires
        old(cpu).wf(),
        !(target is Immediate),
    ensures
        final(cpu).wf(),
        final(cpu)@ == spec_ldi(old(cpu)@, target, from),
        cycles == ld_cycles(target, from),
{
    let value = from.get_value(cpu);
    target.set_value(cpu, value);
    let hl = cpu.registers.hl().wrapping_add(1);
    cpu.registers.set_hl(hl);
    proof {
        assert(cpu@ =~~= spec_ldi(old(cpu)@, target, from));
    }
    4 + target.cost() + from.cost()
}

/// LDH t,f: the high-page load, a plain load whose memory operand lives
/// at 0xFF00 plus an immediate byte.
pub fn ldh(cpu: &mut CPU, target: Target, from: Target) -> (cycles: u8)
    requires
        old(cpu).wf(),
        !(target is Immediate),
    ensures
        final(cpu).wf(),
        final(cpu)@ == spec_ld(old(cpu)@, target, from),
        cycles == ld_cycles(target, from),
{
    let value = from.get_value(cpu);
    target.set_value(cpu, value);
    proof {
        assert(cpu@ =~~= spec_ld(old(cpu)@, target, from));
    }
    4 + target.cost() + from.cost()
}

} // verus!
