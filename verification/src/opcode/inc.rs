//! INC and DEC, in their 8-bit and 16-bit forms.  The 8-bit forms watch
//! the half-carry; the 16-bit forms touch no flag at all.

use vstd::prelude::*;

use crate::cpu::CPU;
use crate::cpu::CpuState;
use crate::registers::Flags;
use super::targets::Target;
use super::targets::Target16;
use super::targets::target16_store;
use super::targets::target16_value;
use super::targets::target_fetch;
use super::targets::target_is_register;
use super::targets::target_store;
use super::targets::target_value;

verus! {

/// Flags of INC r: Z from the result, N clear, H when the low nibble
/// wraps, C untouched.
pub open spec fn inc_flags(v: u8, f: Flags) -> Flags {
    Flags {
        zero: v == 0xFF,
        subtract: false,
        half_carry: v % 0x10 == 0x0F,
        carry: f.carry,
    }
}

/// The machine after INC r.
pub open spec fn spec_inc(s: CpuState, t: Target) -> CpuState {
    let v = target_value(s, t);
    let s1 = target_store(target_fetch(s, t), t, vstd::wrapping::u8_specs::wrapping_add(v, 1));
    s1.with_flags(inc_flags(v, s.regs.f))
}

/// INC r: add one to the operand; the carry flag is untouched.
pub fn inc(cpu: &mut CPU, target: Target) -> (cycles: u8)
    requires
        old(cpu).wf(),
        !(target is Immediate),
    ensures
        final(cpu).wf(),
        final(cpu)@ == spec_inc(old(cpu)@, target),
        cycles == (if target_is_register(target) {
            4u8
        } else {
            12u8
        }),
{
    let value = target.get_value(cpu);
    let result = value.wrapping_add(1);
    target.set_value(cpu, result);
    cpu.registers.f = Flags {
        zero: result == 0,
        subtract: false,
        half_carry: value % 0x10 == 0x0F,
        carry: cpu.registers.f.carry(),
    };
    proof {
        assert(cpu@ =~~= spec_inc(old(cpu)@, target));
    }
    if target.is_register() {
        4
    } else {
        12
    }
}

/// Flags of DEC r: Z from the result, N set, H on a borrow out of the low
/// nibble, C untouched.
pub open spec fn dec_flags(v: u8, f: Flags) -> Flags {
    Flags {
        zero: v == 1,
        subtract: true,
        half_carry: v % 0x10 == 0,
        carry: f.carry,
    }
}

/// The machine after DEC r.
pub open spec fn spec_dec(s: CpuState, t: Target) -> CpuState {
    let v = target_value(s, t);
    let s1 = target_store(target_fetch(s, t), t, vstd::wrapping::u8_specs::wrapping_sub(v, 1));
    s1.with_flags(dec_flags(v, s.regs.f))
}

/// DEC r: subtract one from the operand; the carry flag is untouched.
pub fn dec(cpu: &mut CPU, target: Target) -> (cycles: u8)
    requires
        old(cpu).wf(),
        !(target is Immediate),
    ensures
        final(cpu).wf(),
        final(cpu)@ == spec_dec(old(cpu)@, target),
        cycles == (if target_is_register(target) {
            4u8
        } else {
            12u8
        }),
{
    let value = target.get_value(cpu);
    let result = value.wrapping_sub(1);
    target.set_value(cpu, result);
    cpu.registers.f = Flags {
        zero: result == 0,
        subtract: true,
        half_carry: value % 0x10 == 0,
        carry: cpu.registers.f.carry(),
    };
    proof {
        assert(cpu@ =~~= spec_dec(old(cpu)@, target));
    }
    if target.is_register() {
        4
    } else {
        12
    }
}

/// The machine after INC rr: the pair moves, no flag does.
pub open spec fn spec_inc16(s: CpuState, t: Target16) -> CpuState {
    target16_store(s, t, crate::wadd16(target16_value(s, t), 1))
}

/// INC rr: add one to a 16-bit operand; no flag is touched.
pub fn inc16(cpu: &mut CPU, target: Target16) -> (cycles: u8)
    requires
        old(cpu).wf(),
        !(target is MHL),
        !(target is Immediate),
        !(target is MImmediate),
    ensures
        final(cpu).wf(),
        final(cpu)@ == spec_inc16(old(cpu)@, target),
        cycles == 8,
{
    let value = target.get_value(cpu);
    target.set_value(cpu, value.wrapping_add(1));
    proof {
        assert(cpu@ =~~= spec_inc16(old(cpu)@, target));
    }
    8
}

/// The machine after DEC rr.
pub open spec fn spec_dec16(s: CpuState, t: Target16) -> CpuState {
    target16_store(s, t, crate::wsub16(target16_value(s, t), 1))
}

/// DEC rr: subtract one from a 16-bit operand; no flag is touched.
pub fn dec16(cpu: &mut CPU, target: Target16) -> (cycles: u8)
    requires
        old(cpu).wf(),
        !(target is MHL),
        !(target is Immediate),
        !(target is MImmediate),
    ensures
        final(cpu).wf(),
        final(cpu)@ == spec_dec16(old(cpu)@, target),
        cycles == 8,
{
    let value = target.get_value(cpu);
    target.set_value(cpu, value.wrapping_sub(1));
    proof {
        assert(cpu@ =~~= spec_dec16(old(cpu)@, target));
    }
    8
}

} // verus!
