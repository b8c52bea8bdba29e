//! The CB-prefixed extension and the four accumulator rotates.
//!
//! A second fetch after the 0xCB prefix picks one of 256 bit operations:
//! bits 7..6 choose the family (shift/rotate, BIT, RES, SET), bits 5..3
//! the sub-operation or bit index, bits 2..0 the operand from the fixed
//! register list B, C, D, E, H, L, (HL), A.

use vstd::prelude::*;

use crate::cpu::CPU;
use crate::cpu::CpuState;
use crate::wadd16;
use crate::registers::Flags;
use crate::registers::Registers;
use super::targets::Target;
use super::targets::target_fetch;
use super::targets::target_is_register;
use super::targets::target_store;
use super::targets::target_value;

verus! {

/// A decoded CB-prefixed operation.
#[derive(Clone, Copy, Debug, PartialEq, Eq, Structural)]
pub enum CBOpcode {
    RLC(Target),
    RRC(Target),
    RL(Target),
    RR(Target),
    SLA(Target),
    SRA(Target),
    SWAP(Target),
    SRL(Target),
    BIT(BitTarget, u8),
    RES(BitTarget, u8),
    SET(BitTarget, u8),
}

/// Whether a bit is driven high or low by SET and RES.
#[derive(Clone, Copy, Debug, PartialEq, Eq, Structural)]
pub enum BitStatus {
    High,
    Low,
}

/// The operand of BIT, RES and SET: a register or the cell HL points at.
#[derive(Clone, Copy, Debug, PartialEq, Eq, Structural)]
pub enum BitTarget {
    A,
    B,
    C,
    D,
    E,
    H,
    L,
    MHL,
}

/// The byte the operand denotes.
pub open spec fn bit_target_value(s: CpuState, t: BitTarget) -> u8 {
    match t {
        BitTarget::A => s.regs.a,
        BitTarget::B => s.regs.b,
        BitTarget::C => s.regs.c,
        BitTarget::D => s.regs.d,
        BitTarget::E => s.regs.e,
        BitTarget::H => s.regs.h,
        BitTarget::L => s.regs.l,
        BitTarget::MHL => s.read8(s.regs.hl_spec()),
    }
}

/// The state after a byte is stored into the operand.
pub open spec fn bit_target_store(s: CpuState, t: BitTarget, value: u8) -> CpuState {
    match t {
        BitTarget::A => s.with_regs(Registers { a: value, ..s.regs }),
        BitTarget::B => s.with_regs(Registers { b: value, ..s.regs }),
        BitTarget::C => s.with_regs(Registers { c: value, ..s.regs }),
        BitTarget::D => s.with_regs(Registers { d: value, ..s.regs }),
        BitTarget::E => s.with_regs(Registers { e: value, ..s.regs }),
        BitTarget::H => s.with_regs(Registers { h: value, ..s.regs }),
        BitTarget::L => s.with_regs(Registers { l: value, ..s.regs }),
        BitTarget::MHL => s.write8(s.regs.hl_spec(), value),
    }
}

impl BitTarget {
    /// The operand's byte.
    pub fn get_value(self, cpu: &mut CPU) -> (value: u8)
        requires
            old(cpu).wf(),
        ensures
            final(cpu).wf(),
            *final(cpu) == *old(cpu),
            value == bit_target_value(old(cpu)@, self),
    {
        match self {
            BitTarget::A => cpu.registers.a,
            BitTarget::B => cpu.registers.b,
            BitTarget::C => cpu.registers.c,
            BitTarget::D => cpu.registers.d,
            BitTarget::E => cpu.registers.e,
            BitTarget::H => cpu.registers.h,
            BitTarget::L => cpu.registers.l,
            BitTarget::MHL => {
                let address = cpu.registers.hl();
                cpu.bus.read(address)
            },
        }
    }

    /// Store a byte into the operand.
    pub fn set_value(self, cpu: &mut CPU, value: u8)
        requires
            old(cpu).wf(),
        ensures
            final(cpu).wf(),
            final(cpu)@ == bit_target_store(old(cpu)@, self, value),
    {
        match self {
            BitTarget::A => cpu.registers.a = value,
            BitTarget::B => cpu.registers.b = value,
            BitTarget::C => cpu.registers.c = value,
            BitTarget::D => cpu.registers.d = value,
            BitTarget::E => cpu.registers.e = value,
            BitTarget::H => cpu.registers.h = value,
            BitTarget::L => cpu.registers.l = value,
            BitTarget::MHL => {
                let address = cpu.registers.hl();
                cpu.bus.write(address, value);
            },
        }
        proof {
            assert(cpu@ =~~= bit_target_store(old(cpu)@, self, value));
        }
    }
}

/// The rotate-left-circular result: bit 7 wraps to bit 0.
pub open spec fn rlc_result(v: u8) -> u8 {
    (v << 1) | (v >> 7)
}

/// The rotate-right-circular result: bit 0 wraps to bit 7.
pub open spec fn rrc_result(v: u8) -> u8 {
    (v >> 1) | (v << 7)
}

/// The rotate-left-through-carry result: the old carry enters bit 0.
pub open spec fn rl_result(v: u8, carry: bool) -> u8 {
    (v << 1) | (if carry {
        1u8
    } else {
        0u8
    })
}

/// The rotate-right-through-carry result: the old carry enters bit 7.
pub open spec fn rr_result(v: u8, carry: bool) -> u8 {
    (v >> 1) | (if carry {
        0x80u8
    } else {
        0u8
    })
}

/// Flags of the rotate and shift family: Z from the result where the
/// instruction allows it, N and H clear, C the rotated-out bit.
pub open spec fn rotate_flags(result: u8, carry_out: bool, allow_zero: bool) -> Flags {
    Flags {
        zero: allow_zero && result == 0,
        subtract: false,
        half_carry: false,
        carry: carry_out,
    }
}

/// The machine after a rotate or shift: the result replaces the operand
/// and the flags follow `rotate_flags`.
pub open spec fn spec_rotate(
    s: CpuState,
    t: Target,
    result: u8,
    carry_out: bool,
    allow_zero: bool,
) -> CpuState {
    let s1 = target_store(target_fetch(s, t), t, result);
    s1.with_flags(rotate_flags(result, carry_out, allow_zero))
}

/// The machine after RLC r (or RLCA when the Zero flag is suppressed).
pub open spec fn spec_rlc(s: CpuState, t: Target, allow_zero: bool) -> CpuState {
    let v = target_value(s, t);
    spec_rotate(s, t, rlc_result(v), v & 0x80 != 0, allow_zero)
}

/// RLC r, and RLCA with `allow_zero` false: rotate left circular.
pub fn rlc(cpu: &mut CPU, target: Target, allow_zero: bool) -> (cycles: u8)
    requires
        old(cpu).wf(),
        !(target is Immediate),
    ensures
        final(cpu).wf(),
        final(cpu)@ == spec_rlc(old(cpu)@, target, allow_zero),
        cycles == (if target_is_register(target) {
            8u8
        } else {
            16u8
        }),
{
    let value = target.get_value(cpu);
    let result = (value << 1) | (value >> 7);
    target.set_value(cpu, result);
    cpu.registers.f = Flags {
        zero: allow_zero && result == 0,
        subtract: false,
        half_carry: false,
        carry: value & 0x80 != 0,
    };
    proof {
        assert(cpu@ =~~= spec_rlc(old(cpu)@, target, allow_zero));
    }
    if target.is_register() {
        8
    } else {
        16
    }
}

/// The machine after RRC r (or RRCA when the Zero flag is suppressed).
pub open spec fn spec_rrc(s: CpuState, t: Target, allow_zero: bool) -> CpuState {
    let v = target_value(s, t);
    spec_rotate(s, t, rrc_result(v), v & 0x01 != 0, allow_zero)
}

/// RRC r, and RRCA with `allow_zero` false: rotate right circular.
pub fn rrc(cpu: &mut CPU, target: Target, allow_zero: bool) -> (cycles: u8)
    requires
        old(cpu).wf(),
        !(target is Immediate),
    ensures
        final(cpu).wf(),
        final(cpu)@ == spec_rrc(old(cpu)@, target, allow_zero),
        cycles == (if target_is_register(target) {
            8u8
        } else {
            16u8
        }),
{
    let value = target.get_value(cpu);
    let result = (value >> 1) | (value << 7);
    target.set_value(cpu, result);
    cpu.registers.f = Flags {
        zero: allow_zero && result == 0,
        subtract: false,
        half_carry: false,
        carry: value & 0x01 != 0,
    };
    proof {
        assert(cpu@ =~~= spec_rrc(old(cpu)@, target, allow_zero));
    }
    if target.is_register() {
        8
    } else {
        16
    }
}

/// The machine after RL r (or RLA when the Zero flag is suppressed).
pub open spec fn spec_rl(s: CpuState, t: Target, allow_zero: bool) -> CpuState {
    let v = target_value(s, t);
    spec_rotate(s, t, rl_result(v, s.regs.f.carry), v & 0x80 != 0, allow_zero)
}

/// RL r, and RLA with `allow_zero` false: rotate left through the carry.
pub fn rl(cpu: &mut CPU, target: Target, allow_zero: bool) -> (cycles: u8)
    requires
        old(cpu).wf(),
        !(target is Immediate),
    ensures
        final(cpu).wf(),
        final(cpu)@ == spec_rl(old(cpu)@, target, allow_zero),
        cycles == (if target_is_register(target) {
            8u8
        } else {
            16u8
        }),
{
    let carry: u8 = if cpu.registers.f.carry() {
        1
    } else {
        0
    };
    let value = target.get_value(cpu);
    let result = (value << 1) | carry;
    target.set_value(cpu, result);
    cpu.registers.f = Flags {
        zero: allow_zero && result == 0,
        subtract: false,
        half_carry: false,
        carry: value & 0x80 != 0,
    };
    proof {
        assert(cpu@ =~~= spec_rl(old(cpu)@, target, allow_zero));
    }
    if target.is_register() {
        8
    } else {
        16
    }
}

/// The machine after RR r.
pub open spec fn spec_rr(s: CpuState, t: Target) -> CpuState {
    let v = target_value(s, t);
    spec_rotate(s, t, rr_result(v, s.regs.f.carry), v & 0x01 != 0, true)
}

/// RR r: rotate right through the carry.
pub fn rr(cpu: &mut CPU, target: Target) -> (cycles: u8)
    requires
        old(cpu).wf(),
        !(target is Immediate),
    ensures
        final(cpu).wf(),
        final(cpu)@ == spec_rr(old(cpu)@, target),
        cycles == (if target_is_register(target) {
            8u8
        } else {
            16u8
        }),
{
    let carry: u8 = if cpu.registers.f.carry() {
        0x80
    } else {
        0
    };
    let value = target.get_value(cpu);
    let result = (value >> 1) | carry;
    target.set_value(cpu, result);
    cpu.registers.f = Flags {
        zero: result == 0,
        subtract: false,
        half_carry: false,
        carry: value & 0x01 != 0,
    };
    proof {
        assert(cpu@ =~~= spec_rr(old(cpu)@, target));
    }
    if target.is_register() {
        8
    } else {
        16
    }
}

/// The machine after RRA: RR on A with the Zero flag suppressed.
pub open spec fn spec_rra(s: CpuState) -> CpuState {
    let v = s.regs.a;
    let result = rr_result(v, s.regs.f.carry);
    s.with_regs(
        Registers { a: result, f: rotate_flags(result, v & 0x01 != 0, false), ..s.regs },
    )
}

/// RRA: rotate A right through the carry; the Zero flag comes out clear.
pub fn rra(cpu: &mut CPU) -> (cycles: u8)
    requires
        old(cpu).wf(),
    ensures
        final(cpu).wf(),
        final(cpu)@ == spec_rra(old(cpu)@),
        cycles == 4,
{
    let a = cpu.registers.a;
    let old_carry: u8 = if cpu.registers.f.carry() {
        0x80
    } else {
        0
    };
    cpu.registers.a = (a >> 1) | old_carry;
    cpu.registers.f = Flags {
        zero: false,
        subtract: false,
        half_carry: false,
        carry: a & 0x01 != 0,
    };
    proof {
        assert(cpu@ =~~= spec_rra(old(cpu)@));
    }
    4
}

/// The machine after SRL r: a plain right shift, bit 7 comes out clear.
pub open spec fn spec_srl(s: CpuState, t: Target) -> CpuState {
    let v = target_value(s, t);
    spec_rotate(s, t, v >> 1, v & 0x01 != 0, true)
}

/// SRL r: shift right logical.
pub fn srl(cpu: &mut CPU, target: Target) -> (cycles: u8)
    requires
        old(cpu).wf(),
        !(target is Immediate),
    ensures
        final(cpu).wf(),
        final(cpu)@ == spec_srl(old(cpu)@, target),
        cycles == (if target_is_register(target) {
            8u8
        } else {
            16u8
        }),
{
    let value = target.get_value(cpu);
    let result = value >> 1;
    target.set_value(cpu, result);
    cpu.registers.f = Flags {
        zero: result == 0,
        subtract: false,
        half_carry: false,
        carry: value & 0x01 != 0,
    };
    proof {
        assert(cpu@ =~~= spec_srl(old(cpu)@, target));
    }
    if target.is_register() {
        8
    } else {
        16
    }
}

/// The machine after SWAP r: the nibbles trade places, carry comes out
/// clear.
pub open spec fn spec_swap(s: CpuState, t: Target) -> CpuState {
    let v = target_value(s, t);
    spec_rotate(s, t, (v << 4) | (v >> 4), false, true)
}

/// SWAP r: exchange the high and low nibbles.
pub fn swap(cpu: &mut CPU, target: Target) -> (cycles: u8)
    requires
        old(cpu).wf(),
        !(target is Immediate),
    ensures
        final(cpu).wf(),
        final(cpu)@ == spec_swap(old(cpu)@, target),
        cycles == (if target_is_register(target) {
            8u8
        } else {
            16u8
        }),
{
    let value = target.get_value(cpu);
    let result = (value << 4) | (value >> 4);
    target.set_value(cpu, result);
    cpu.registers.f = Flags {
        zero: result == 0,
        subtract: false,
        half_carry: false,
        carry: false,
    };
    proof {
        assert(cpu@ =~~= spec_swap(old(cpu)@, target));
    }
    if target.is_register() {
        8
    } else {
        16
    }
}

/// The machine after SLA r: a left shift, bit 0 comes out clear.
pub open spec fn spec_sla(s: CpuState, t: Target) -> CpuState {
    let v = target_value(s, t);
    spec_rotate(s, t, v << 1, v & 0x80 != 0, true)
}

/// SLA r: shift left arithmetic.
pub fn sla(cpu: &mut CPU, target: Target) -> (cycles: u8)
    requires
        old(cpu).wf(),
        !(target is Immediate),
    ensures
        final(cpu).wf(),
        final(cpu)@ == spec_sla(old(cpu)@, target),
        cycles == (if target_is_register(target) {
            8u8
        } else {
            16u8
        }),
{
    let value = target.get_value(cpu);
    let result = value << 1;
    target.set_value(cpu, result);
    cpu.registers.f = Flags {
        zero: result == 0,
        subtract: false,
        half_carry: false,
        carry: value & 0x80 != 0,
    };
    proof {
        assert(cpu@ =~~= spec_sla(old(cpu)@, target));
    }
    if target.is_register() {
        8
    } else {
        16
    }
}

/// The machine after SRA r: a right shift that keeps the sign bit.
pub open spec fn spec_sra(s: CpuState, t: Target) -> CpuState {
    let v = target_value(s, t);
    spec_rotate(s, t, (v >> 1) | (v & 0x80), v & 0x01 != 0, true)
}

/// SRA r: shift right arithmetic.
pub fn sra(cpu: &mut CPU, target: Target) -> (cycles: u8)
    requires
        old(cpu).wf(),
        !(target is Immediate),
    ensures
        final(cpu).wf(),
        final(cpu)@ == spec_sra(old(cpu)@, target),
        cycles == (if target_is_register(target) {
            8u8
        } else {
            16u8
        }),
{
    let value = target.get_value(cpu);
    let result = (value >> 1) | (value & 0x80);
    target.set_value(cpu, result);
    cpu.registers.f = Flags {
        zero: result == 0,
        subtract: false,
        half_carry: false,
        carry: value & 0x01 != 0,
    };
    proof {
        assert(cpu@ =~~= spec_sra(old(cpu)@, target));
    }
    if target.is_register() {
        8
    } else {
        16
    }
}

/// The machine after BIT n,r: Z is the complement of the tested bit, N
/// clear, H set, C untouched.
pub open spec fn spec_test_bit(s: CpuState, t: BitTarget, bit: u8) -> CpuState {
    let v = bit_target_value(s, t);
    s.with_flags(
        Flags {
            zero: v & (1u8 << bit) == 0,
            subtract: false,
            half_carry: true,
            carry: s.regs.f.carry,
        },
    )
}

/// BIT n,r: test one bit of the operand.
pub fn test_bit(cpu: &mut CPU, target: BitTarget, bit: u8) -> (cycles: u8)
    requires
        old(cpu).wf(),
        bit < 8,
    ensures
        final(cpu).wf(),
        final(cpu)@ == spec_test_bit(old(cpu)@, target, bit),
        cycles == (if target is MHL {
            12u8
        } else {
            8u8
        }),
{
    let value = target.get_value(cpu);
    cpu.registers.f = Flags {
        zero: value & (1u8 << bit) == 0,
        subtract: false,
        half_carry: true,
        carry: cpu.registers.f.carry(),
    };
    proof {
        assert(cpu@ =~~= spec_test_bit(old(cpu)@, target, bit));
    }
    match target {
        BitTarget::MHL => 12,
        _ => 8,
    }
}

/// The machine after RES n,r or SET n,r: the chosen bit driven low or
/// high; no flag is touched.
pub open spec fn spec_set_bit(s: CpuState, t: BitTarget, bit: u8, status: BitStatus) -> CpuState {
    let v = bit_target_value(s, t);
    let result = match status {
        BitStatus::High => v | (1u8 << bit),
        BitStatus::Low => v & !(1u8 << bit),
    };
    bit_target_store(s, t, result)
}

/// RES n,r and SET n,r: drive one bit of the operand low or high.
pub fn set_bit(cpu: &mut CPU, target: BitTarget, bit: u8, status: BitStatus) -> (cycles: u8)
    requires
        old(cpu).wf(),
        bit < 8,
    ensures
        final(cpu).wf(),
        final(cpu)@ == spec_set_bit(old(cpu)@, target, bit, status),
        cycles == (if target is MHL {
            16u8
        } else {
            8u8
        }),
{
    let value = target.get_value(cpu);
    let mask = 1u8 << bit;
    let result = match status {
        BitStatus::High => value | mask,
        BitStatus::Low => value & !mask,
    };
    target.set_value(cpu, result);
    proof {
        assert(cpu@ =~~= spec_set_bit(old(cpu)@, target, bit, status));
    }
    match target {
        BitTarget::MHL => 16,
        _ => 8,
    }
}

/// The rotate/shift operand encoded by the low three bits of a CB opcode.
pub open spec fn cb_rotate_target(k: u8) -> Target {
    if k == 0 {
        Target::B
    } else if k == 1 {
        Target::C
    } else if k == 2 {
        Target::D
    } else if k == 3 {
        Target::E
    } else if k == 4 {
        Target::H
    } else if k == 5 {
        Target::L
    } else if k == 6 {
        Target::MHL
    } else {
        Target::A
    }
}

/// The bit operand encoded by the low three bits of a CB opcode.
pub open spec fn cb_bit_target(k: u8) -> BitTarget {
    if k == 0 {
        BitTarget::B
    } else if k == 1 {
        BitTarget::C
    } else if k == 2 {
        BitTarget::D
    } else if k == 3 {
        BitTarget::E
    } else if k == 4 {
        BitTarget::H
    } else if k == 5 {
        BitTarget::L
    } else if k == 6 {
        BitTarget::MHL
    } else {
        BitTarget::A
    }
}

/// The CB decode: bits 7..6 pick the family, bits 5..3 the sub-operation
/// or bit index, bits 2..0 the operand.
pub open spec fn spec_cb_decode(b: u8) -> CBOpcode {
    let k = b % 8;
    let n = (b / 8) % 8;
    if b < 0x40 {
        let t = cb_rotate_target(k);
        if n == 0 {
            CBOpcode::RLC(t)
        } else if n == 1 {
            CBOpcode::RRC(t)
        } else if n == 2 {
            CBOpcode::RL(t)
        } else if n == 3 {
            CBOpcode::RR(t)
        } else if n == 4 {
            CBOpcode::SLA(t)
        } else if n == 5 {
            CBOpcode::SRA(t)
        } else if n == 6 {
            CBOpcode::SWAP(t)
        } else {
            CBOpcode::SRL(t)
        }
    } else if b < 0x80 {
        CBOpcode::BIT(cb_bit_target(k), n)
    } else if b < 0xC0 {
        CBOpcode::RES(cb_bit_target(k), n)
    } else {
        CBOpcode::SET(cb_bit_target(k), n)
    }
}

impl CBOpcode {
    /// Decode one CB-prefixed opcode byte.
    pub fn from_byte(byte: u8) -> (op: CBOpcode)
        ensures
            op == spec_cb_decode(byte),
    {
        let k = byte % 8;
        let n = (byte / 8) % 8;
        let t = if k == 0 {
            Target::B
        } else if k == 1 {
            Target::C
        } else if k == 2 {
            Target::D
        } else if k == 3 {
            Target::E
        } else if k == 4 {
            Target::H
        } else if k == 5 {
            Target::L
        } else if k == 6 {
            Target::MHL
        } else {
            Target::A
        };
        let bt = if k == 0 {
            BitTarget::B
        } else if k == 1 {
            BitTarget::C
        } else if k == 2 {
            BitTarget::D
        } else if k == 3 {
            BitTarget::E
        } else if k == 4 {
            BitTarget::H
        } else if k == 5 {
            BitTarget::L
        } else if k == 6 {
            BitTarget::MHL
        } else {
            BitTarget::A
        };
        if byte < 0x40 {
            if n == 0 {
                CBOpcode::RLC(t)
            } else if n == 1 {
                CBOpcode::RRC(t)
            } else if n == 2 {
                CBOpcode::RL(t)
            } else if n == 3 {
                CBOpcode::RR(t)
            } else if n == 4 {
                CBOpcode::SLA(t)
            } else if n == 5 {
                CBOpcode::SRA(t)
            } else if n == 6 {
                CBOpcode::SWAP(t)
            } else {
                CBOpcode::SRL(t)
            }
        } else if byte < 0x80 {
            CBOpcode::BIT(bt, n)
        } else if byte < 0xC0 {
            CBOpcode::RES(bt, n)
        } else {
            CBOpcode::SET(bt, n)
        }
    }
}

/// The machine after one decoded CB operation.
pub open spec fn spec_cb_execute(s: CpuState, op: CBOpcode) -> CpuState {
    match op {
        CBOpcode::RLC(t) => spec_rlc(s, t, true),
        CBOpcode::RRC(t) => spec_rrc(s, t, true),
        CBOpcode::RL(t) => spec_rl(s, t, true),
        CBOpcode::RR(t) => spec_rr(s, t),
        CBOpcode::SLA(t) => spec_sla(s, t),
        CBOpcode::SRA(t) => spec_sra(s, t),
        CBOpcode::SWAP(t) => spec_swap(s, t),
        CBOpcode::SRL(t) => spec_srl(s, t),
        CBOpcode::BIT(t, bit) => spec_test_bit(s, t, bit),
        CBOpcode::RES(t, bit) => spec_set_bit(s, t, bit, BitStatus::Low),
        CBOpcode::SET(t, bit) => spec_set_bit(s, t, bit, BitStatus::High),
    }
}

/// Cycle cost of one CB operation, the prefix fetch counted in.
pub open spec fn cb_cycles(op: CBOpcode) -> u8 {
    match op {
        CBOpcode::RLC(t) => if target_is_register(t) {
            8
        } else {
            16
        },
        CBOpcode::RRC(t) => if target_is_register(t) {
            8
        } else {
            16
        },
        CBOpcode::RL(t) => if target_is_register(t) {
            8
        } else {
            16
        },
        CBOpcode::RR(t) => if target_is_register(t) {
            8
        } else {
            16
        },
        CBOpcode::SLA(t) => if target_is_register(t) {
            8
        } else {
            16
        },
        CBOpcode::SRA(t) => if target_is_register(t) {
            8
        } else {
            16
        },
        CBOpcode::SWAP(t) => if target_is_register(t) {
            8
        } else {
            16
        },
        CBOpcode::SRL(t) => if target_is_register(t) {
            8
        } else {
            16
        },
        CBOpcode::BIT(t, _) => if t is MHL {
            12
        } else {
            8
        },
        CBOpcode::RES(t, _) => if t is MHL {
            16
        } else {
            8
        },
        CBOpcode::SET(t, _) => if t is MHL {
            16
        } else {
            8
        },
    }
}

/// The machine after the CB prefix: the second opcode byte is fetched,
/// decoded and executed.
pub open spec fn spec_prefix_cb(s: CpuState) -> CpuState {
    let op = spec_cb_decode(s.read8(s.pc));
    spec_cb_execute(s.with_pc(wadd16(s.pc, 1)), op)
}

/// Cycle cost of the CB prefix at the current PC.
pub open spec fn spec_prefix_cb_cycles(s: CpuState) -> u8 {
    cb_cycles(spec_cb_decode(s.read8(s.pc)))
}

/// The CB prefix: fetch the second opcode byte and execute the bit
/// operation it encodes.
pub fn prefix_cb(cpu: &mut CPU) -> (cycles: u8)
    requires
        old(cpu).wf(),
    ensures
        final(cpu).wf(),
        final(cpu)@ == spec_prefix_cb(old(cpu)@),
        cycles == spec_prefix_cb_cycles(old(cpu)@),
{
    let op_byte = cpu.next_byte();
    let opcode = CBOpcode::from_byte(op_byte);
    proof {
        assert((op_byte / 8) % 8 < 8);
    }
    let cycles = match opcode {
        CBOpcode::RLC(target) => rlc(cpu, target, true),
        CBOpcode::RRC(target) => rrc(cpu, target, true),
        CBOpcode::RL(target) => rl(cpu, target, true),
        CBOpcode::RR(target) => rr(cpu, target),
        CBOpcode::SLA(target) => sla(cpu, target),
        CBOpcode::SRA(target) => sra(cpu, target),
        CBOpcode::SWAP(target) => swap(cpu, target),
        CBOpcode::SRL(target) => srl(cpu, target),
        CBOpcode::BIT(target, bit) => test_bit(cpu, target, bit),
        CBOpcode::RES(target, bit) => set_bit(cpu, target, bit, BitStatus::Low),
        CBOpcode::SET(target, bit) => set_bit(cpu, target, bit, BitStatus::High),
    };
    proof {
        assert(cpu@ =~~= spec_prefix_cb(old(cpu)@));
    }
    cycles
}

/// RLC applied `k` times, as a recursive function on the byte.
pub open spec fn iter_rlc(b: u8, k: nat) -> u8
    decreases k,
{
    if k == 0 {
        b
    } else {
        rlc_result(iter_rlc(b, (k - 1) as nat))
    }
}

/// RRC applied `k` times.
pub open spec fn iter_rrc(b: u8, k: nat) -> u8
    decreases k,
{
    if k == 0 {
        b
    } else {
        rrc_result(iter_rrc(b, (k - 1) as nat))
    }
}

/// The byte rotated left by `k` positions, `k` up to eight.
pub open spec fn rot_left8(b: u8, k: u8) -> u8 {
    if k % 8 == 0 {
        b
    } else {
        (b << (k % 8)) | (b >> ((8 - k % 8) as u8))
    }
}

/// The byte rotated right by `k` positions, `k` up to eight.
pub open spec fn rot_right8(b: u8, k: u8) -> u8 {
    if k % 8 == 0 {
        b
    } else {
        (b >> (k % 8)) | (b << ((8 - k % 8) as u8))
    }
}

/// One more RLC advances the rotation count by one.
proof fn lemma_rlc_step(b: u8, j: u8)
    requires
        j < 8,
    ensures
        rlc_result(rot_left8(b, j)) == rot_left8(b, (j + 1) as u8),
{
    assert(rlc_result(rot_left8(b, j)) == rot_left8(b, (j + 1) as u8)) by (bit_vector)
        requires
            j < 8,
    ;
}

/// One more RRC advances the rotation count by one.
proof fn lemma_rrc_step(b: u8, j: u8)
    requires
        j < 8,
    ensures
        rrc_result(rot_right8(b, j)) == rot_right8(b, (j + 1) as u8),
{
    assert(rrc_result(rot_right8(b, j)) == rot_right8(b, (j + 1) as u8)) by (bit_vector)
        requires
            j < 8,
    ;
}

/// Applying RLC `k` times rotates the byte left by `k`, for every count
/// up to eight — eight applications restore the byte.
pub proof fn lemma_rlc_rotates(b: u8, k: u8)
    requires
        k <= 8,
    ensures
        iter_rlc(b, k as nat) == rot_left8(b, k),
    decreases k,
{
    if k > 0 {
        lemma_rlc_rotates(b, (k - 1) as u8);
        lemma_rlc_step(b, (k - 1) as u8);
    }
}

/// Applying RRC `k` times rotates the byte right by `k`, for every count
/// up to eight.
pub proof fn lemma_rrc_rotates(b: u8, k: u8)
    requires
        k <= 8,
    ensures
        iter_rrc(b, k as nat) == rot_right8(b, k),
    decreases k,
{
    if k > 0 {
        lemma_rrc_rotates(b, (k - 1) as u8);
        lemma_rrc_step(b, (k - 1) as u8);
    }
}

} // verus!
