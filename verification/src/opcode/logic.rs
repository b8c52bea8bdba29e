//! The bitwise logic family — AND, OR, XOR — and the flag instructions
//! CPL, SCF and CCF.

use vstd::prelude::*;

use crate::cpu::CPU;
use crate::cpu::CpuState;
use crate::registers::Flags;
use crate::registers::Registers;
use super::targets::Target;
use super::targets::arith_cycles;
use super::targets::target_fetch;
use super::targets::target_value;

verus! {

/// Flags of OR and XOR: Z from the result, everything else clear.
pub open spec fn logic_flags(result: u8) -> Flags {
    Flags { zero: result == 0, subtract: false, half_carry: false, carry: false }
}

/// Flags of AND: as OR, but the half-carry flag is set.
pub open spec fn and_flags(result: u8) -> Flags {
    Flags { zero: result == 0, subtract: false, half_carry: true, carry: false }
}

/// The machine after OR A,v.
pub open spec fn spec_or(s: CpuState, t: Target) -> CpuState {
    let r = s.regs.a | target_value(s, t);
    let s1 = target_fetch(s, t);
    s1.with_regs(Registers { a: r, f: logic_flags(r), ..s1.regs })
}

/// OR A,v: bitwise or into A.
pub fn or(cpu: &mut CPU, target: Target) -> (cycles: u8)
    requires
        old(cpu).wf(),
    ensures
        final(cpu).wf(),
        final(cpu)@ == spec_or(old(cpu)@, target),
        cycles == arith_cycles(target),
{
    let value = target.get_value(cpu);
    let result = cpu.registers.a | value;
    cpu.registers.a = result;
    cpu.registers.f = Flags { zero: result == 0, subtract: false, half_carry: false, carry: false };
    proof {
        assert(cpu@ =~~= spec_or(old(cpu)@, target));
    }
    if target.is_register() {
        4
    } else {
        8
    }
}

/// The machine after AND A,v.
pub open spec fn spec_and(s: CpuState, t: Target) -> CpuState {
    let r = s.regs.a & target_value(s, t);
    let s1 = target_fetch(s, t);
    s1.with_regs(Registers { a: r, f: and_flags(r), ..s1.regs })
}

/// AND A,v: bitwise and into A; the half-carry flag is always set.
pub fn and(cpu: &mut CPU, target: Target) -> (cycles: u8)
    requires
        old(cpu).wf(),
    ensures
        final(cpu).wf(),
        final(cpu)@ == spec_and(old(cpu)@, target),
        cycles == arith_cycles(target),
{
    let value = target.get_value(cpu);
    let result = cpu.registers.a & value;
    cpu.registers.a = result;
    cpu.registers.f = Flags { zero: result == 0, subtract: false, half_carry: true, carry: false };
    proof {
        assert(cpu@ =~~= spec_and(old(cpu)@, target));
    }
    if target.is_register() {
        4
    } else {
        8
    }
}

/// The machine after XOR A,v.
pub open spec fn spec_xor(s: CpuState, t: Target) -> CpuState {
    let r = s.regs.a ^ target_value(s, t);
    let s1 = target_fetch(s, t);
    s1.with_regs(Registers { a: r, f: logic_flags(r), ..s1.regs })
}

/// XOR A,v: bitwise exclusive-or into A.
pub fn xor(cpu: &mut CPU, target: Target) -> (cycles: u8)
    requires
        old(cpu).wf(),
    ensures
        final(cpu).wf(),
        final(cpu)@ == spec_xor(old(cpu)@, target),
        cycles == arith_cycles(target),
{
    let value = target.get_value(cpu);
    let result = cpu.registers.a ^ value;
    cpu.registers.a = result;
    cpu.registers.f = Flags { zero: result == 0, subtract: false, half_carry: false, carry: false };
    proof {
        assert(cpu@ =~~= spec_xor(old(cpu)@, target));
    }
    if target.is_register() {
        4
    } else {
        8
    }
}

/// The machine after CPL: A is complemented, N and H are set, Z and C are
/// untouched.
pub open spec fn spec_cpl(s: CpuState) -> CpuState {
    s.with_regs(
        Registers {
            a: !s.regs.a,
            f: Flags { subtract: true, half_carry: true, ..s.regs.f },
            ..s.regs
        },
    )
}

/// CPL: complement A.
pub fn cpl(cpu: &mut CPU) -> (cycles: u8)
    requires
        old(cpu).wf(),
    ensures
        final(cpu).wf(),
        final(cpu)@ == spec_cpl(old(cpu)@),
        cycles == 4,
{
    cpu.registers.a = !cpu.registers.a;
    cpu.registers.f = Flags {
        subtract: true,
        half_carry: true,
        zero: cpu.registers.f.zero(),
        carry: cpu.registers.f.carry(),
    };
    proof {
        assert(cpu@ =~~= spec_cpl(old(cpu)@));
    }
    4
}

/// The machine after SCF: carry set, N and H cleared, Z untouched.
pub open spec fn spec_scf(s: CpuState) -> CpuState {
    s.with_flags(Flags { subtract: false, half_carry: false, carry: true, ..s.regs.f })
}

/// SCF: set the carry flag.
pub fn scf(cpu: &mut CPU) -> (cycles: u8)
    requires
        old(cpu).wf(),
    ensures
        final(cpu).wf(),
        final(cpu)@ == spec_scf(old(cpu)@),
        cycles == 4,
{
    cpu.registers.f = Flags {
        subtract: false,
        half_carry: false,
        carry: true,
        zero: cpu.registers.f.zero(),
    };
    proof {
        assert(cpu@ =~~= spec_scf(old(cpu)@));
    }
    4
}

/// The machine after CCF: carry complemented, N and H cleared, Z
/// untouched.
pub open spec fn spec_ccf(s: CpuState) -> CpuState {
    s.with_flags(Flags { subtract: false, half_carry: false, carry: !s.regs.f.carry, ..s.regs.f })
}

/// CCF: complement the carry flag.
pub fn ccf(cpu: &mut CPU) -> (cycles: u8)
    requires
        old(cpu).wf(),
    ensures
        final(cpu).wf(),
        final(cpu)@ == spec_ccf(old(cpu)@),
        cycles == 4,
{
    cpu.registers.f = Flags {
        subtract: false,
        half_carry: false,
        carry: !cpu.registers.f.carry(),
        zero: cpu.registers.f.zero(),
    };
    proof {
        assert(cpu@ =~~= spec_ccf(old(cpu)@));
    }
    4
}

} // verus!
