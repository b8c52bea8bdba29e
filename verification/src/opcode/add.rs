//! The addition family: ADD, ADC, SUB, SBC, the 16-bit ADD HL,rr, the
//! signed stack-pointer addition, and the BCD adjust DAA.
//!
//! Every flag update follows the documented rules: the half-carry flag
//! watches bit 3 (bit 11 for ADD HL,rr), the carry flag watches bit 7
//! (bit 15 for ADD HL,rr).

use vstd::prelude::*;

use crate::cpu::CPU;
use crate::cpu::CpuState;
use crate::wadd16;
use crate::registers::Flags;
use crate::registers::Registers;
use super::targets::Target;
use super::targets::Target16;
use super::targets::arith_cycles;
use super::targets::target16_fetch;
use super::targets::target16_store;
use super::targets::target16_value;
use super::targets::target_fetch;
use super::targets::target_value;

verus! {

/// Flags of ADD A,v: Z from the 8-bit result, N clear, H on a carry out of
/// the low nibble, C on a carry out of bit 7.
pub open spec fn add_flags(a: u8, v: u8) -> Flags {
    Flags {
        zero: (a + v) % 0x100 == 0,
        subtract: false,
        half_carry: a % 0x10 + v % 0x10 > 0x0F,
        carry: a + v > 0xFF,
    }
}

/// The machine after ADD A,v.
pub open spec fn spec_add(s: CpuState, t: Target) -> CpuState {
    let a = s.regs.a;
    let v = target_value(s, t);
    let s1 = target_fetch(s, t);
    s1.with_regs(Registers { a: ((a + v) % 0x100) as u8, f: add_flags(a, v), ..s1.regs })
}

/// ADD A,v: add the operand to A.
pub fn add(cpu: &mut CPU, target: Target) -> (cycles: u8)
    requires
        old(cpu).wf(),
    ensures
        final(cpu).wf(),
        final(cpu)@ == spec_add(old(cpu)@, target),
        cycles == arith_cycles(target),
{
    let value = target.get_value(cpu);
    let a = cpu.registers.a;
    let sum = a as u16 + value as u16;
    cpu.registers.a = (sum % 0x100) as u8;
    cpu.registers.f = Flags {
        zero: sum % 0x100 == 0,
        subtract: false,
        half_carry: a % 0x10 + value % 0x10 > 0x0F,
        carry: sum > 0xFF,
    };
    proof {
        assert(cpu@ =~~= spec_add(old(cpu)@, target));
    }
    if target.is_register() {
        4
    } else {
        8
    }
}

/// Flags of ADC A,v with carry-in c: as ADD, with c in both sums.
pub open spec fn adc_flags(a: u8, v: u8, c: u8) -> Flags {
    Flags {
        zero: (a + v + c) % 0x100 == 0,
        subtract: false,
        half_carry: a % 0x10 + v % 0x10 + c > 0x0F,
        carry: a + v + c > 0xFF,
    }
}

/// The machine after ADC A,v.
pub open spec fn spec_adc(s: CpuState, t: Target) -> CpuState {
    let a = s.regs.a;
    let v = target_value(s, t);
    let c: u8 = if s.regs.f.carry {
        1
    } else {
        0
    };
    let s1 = target_fetch(s, t);
    s1.with_regs(Registers { a: ((a + v + c) % 0x100) as u8, f: adc_flags(a, v, c), ..s1.regs })
}

/// ADC A,v: add the operand and the carry flag to A.
pub fn adc(cpu: &mut CPU, target: Target) -> (cycles: u8)
    requires
        old(cpu).wf(),
    ensures
        final(cpu).wf(),
        final(cpu)@ == spec_adc(old(cpu)@, target),
        cycles == arith_cycles(target),
{
    let value = target.get_value(cpu);
    let a = cpu.registers.a;
    let carry: u8 = if cpu.registers.f.carry() {
        1
    } else {
        0
    };
    let sum = a as u16 + value as u16 + carry as u16;
    cpu.registers.a = (sum % 0x100) as u8;
    cpu.registers.f = Flags {
        zero: sum % 0x100 == 0,
        subtract: false,
        half_carry: a % 0x10 + value % 0x10 + carry > 0x0F,
        carry: sum > 0xFF,
    };
    proof {
        assert(cpu@ =~~= spec_adc(old(cpu)@, target));
    }
    if target.is_register() {
        4
    } else {
        8
    }
}

/// Flags of SUB A,v: Z from the result, N set, H on a borrow into the low
/// nibble, C on a borrow into bit 7.
pub open spec fn sub_flags(a: u8, v: u8) -> Flags {
    Flags {
        zero: a == v,
        subtract: true,
        half_carry: a % 0x10 < v % 0x10,
        carry: a < v,
    }
}

/// The 8-bit difference of SUB A,v, modulo 256.
pub open spec fn sub_result(a: u8, v: u8) -> u8 {
    vstd::wrapping::u8_specs::wrapping_sub(a, v)
}

/// The machine after SUB A,v.
pub open spec fn spec_sub(s: CpuState, t: Target) -> CpuState {
    let a = s.regs.a;
    let v = target_value(s, t);
    let s1 = target_fetch(s, t);
    s1.with_regs(Registers { a: sub_result(a, v), f: sub_flags(a, v), ..s1.regs })
}

/// SUB A,v: subtract the operand from A.
pub fn sub(cpu: &mut CPU, target: Target) -> (cycles: u8)
    requires
        old(cpu).wf(),
    ensures
        final(cpu).wf(),
        final(cpu)@ == spec_sub(old(cpu)@, target),
        cycles == arith_cycles(target),
{
    let value = target.get_value(cpu);
    let a = cpu.registers.a;
    cpu.registers.a = a.wrapping_sub(value);
    cpu.registers.f = Flags {
        zero: a == value,
        subtract: true,
        half_carry: a % 0x10 < value % 0x10,
        carry: a < value,
    };
    proof {
        assert(cpu@ =~~= spec_sub(old(cpu)@, target));
    }
    if target.is_register() {
        4
    } else {
        8
    }
}

/// Flags of SBC A,v with carry-in c.
pub open spec fn sbc_flags(a: u8, v: u8, c: u8) -> Flags {
    Flags {
        zero: vstd::wrapping::u8_specs::wrapping_sub(sub_result(a, v), c) == 0,
        subtract: true,
        half_carry: a % 0x10 < v % 0x10 + c,
        carry: (a as int) < v + c,
    }
}

/// The machine after SBC A,v.
pub open spec fn spec_sbc(s: CpuState, t: Target) -> CpuState {
    let a = s.regs.a;
    let v = target_value(s, t);
    let c: u8 = if s.regs.f.carry {
        1
    } else {
        0
    };
    let s1 = target_fetch(s, t);
    s1.with_regs(
        Registers {
            a: vstd::wrapping::u8_specs::wrapping_sub(sub_result(a, v), c),
            f: sbc_flags(a, v, c),
            ..s1.regs
        },
    )
}

/// SBC A,v: subtract the operand and the carry flag from A.
pub fn sbc(cpu: &mut CPU, target: Target) -> (cycles: u8)
    requires
        old(cpu).wf(),
    ensures
        final(cpu).wf(),
        final(cpu)@ == spec_sbc(old(cpu)@, target),
        cycles == arith_cycles(target),
{
    let value = target.get_value(cpu);
    let a = cpu.registers.a;
    let carry: u8 = if cpu.registers.f.carry() {
        1
    } else {
        0
    };
    let result = a.wrapping_sub(value).wrapping_sub(carry);
    cpu.registers.a = result;
    cpu.registers.f = Flags {
        zero: result == 0,
        subtract: true,
        half_carry: a % 0x10 < value % 0x10 + carry,
        carry: (a as u16) < value as u16 + carry as u16,
    };
    proof {
        assert(cpu@ =~~= spec_sbc(old(cpu)@, target));
    }
    if target.is_register() {
        4
    } else {
        8
    }
}

/// Flags of ADD HL,ww: Z untouched, N clear, H on a carry out of bit 11,
/// C on a carry out of bit 15.
pub open spec fn add16_flags(hl: u16, ww: u16, f: Flags) -> Flags {
    Flags {
        zero: f.zero,
        subtract: false,
        half_carry: hl % 0x1000 + ww % 0x1000 > 0x0FFF,
        carry: hl + ww > 0xFFFF,
    }
}

/// The machine after ADD HL,ww.
pub open spec fn spec_add16(s: CpuState, t: Target16) -> CpuState {
    let hl = s.regs.hl_spec();
    let ww = target16_value(s, t);
    let sum = ((hl + ww) % 0x10000) as u16;
    let s1 = target16_fetch(s, t);
    s1.with_regs(
        Registers {
            h: (sum / 0x100) as u8,
            l: (sum % 0x100) as u8,
            f: add16_flags(hl, ww, s.regs.f),
            ..s1.regs
        },
    )
}

/// ADD HL,ww: add a 16-bit operand into HL; the Zero flag is untouched.
pub fn add16(cpu: &mut CPU, target: Target16) -> (cycles: u8)
    requires
        old(cpu).wf(),
    ensures
        final(cpu).wf(),
        final(cpu)@ == spec_add16(old(cpu)@, target),
        cycles == 8,
{
    let hl = cpu.registers.hl();
    let ww = target.get_value(cpu);
    let sum = hl as u32 + ww as u32;
    cpu.registers.f = Flags {
        zero: cpu.registers.f.zero(),
        subtract: false,
        half_carry: hl % 0x1000 + ww % 0x1000 > 0x0FFF,
        carry: sum > 0xFFFF,
    };
    cpu.registers.set_hl((sum % 0x10000) as u16);
    proof {
        assert(cpu@ =~~= spec_add16(old(cpu)@, target));
    }
    8
}

/// A byte read as a two's-complement offset and widened to sixteen bits.
pub open spec fn sign_extend(b: u8) -> u16 {
    if b < 0x80 {
        b as u16
    } else {
        (0xFF00 + b) as u16
    }
}

/// Flags of the signed stack-pointer addition: Z and N clear, H and C from
/// the unsigned low-byte sums.
pub open spec fn addsp_flags(sp: u16, e: u8) -> Flags {
    Flags {
        zero: false,
        subtract: false,
        half_carry: sp % 0x10 + e % 0x10 > 0x0F,
        carry: sp % 0x100 + e > 0xFF,
    }
}

/// The machine after ADD SP,e or LD HL,SP+e: the immediate offset is
/// fetched, sign-extended, and added to SP; the sum lands in the operand.
pub open spec fn spec_ld_add(s: CpuState, t: Target16) -> CpuState {
    let e = s.read8(s.pc);
    let sum = wadd16(s.sp, sign_extend(e));
    let s1 = s.with_pc(wadd16(s.pc, 1)).with_regs(
        Registers { f: addsp_flags(s.sp, e), ..s.regs },
    );
    target16_store(s1, t, sum)
}

/// ADD SP,e and LD HL,SP+e: add a signed immediate byte to SP and store
/// the sum into the operand.
pub fn ld_add(cpu: &mut CPU, target: Target16) -> (cycles: u8)
    requires
        old(cpu).wf(),
        !(target is MHL),
        !(target is Immediate),
    ensures
        final(cpu).wf(),
        final(cpu)@ == spec_ld_add(old(cpu)@, target),
        cycles == (if target is SP {
            16u8
        } else {
            12u8
        }),
{
    let sp = cpu.sp;
    let e = cpu.next_byte();
    let offset: u16 = if e < 0x80 {
        e as u16
    } else {
        0xFF00 + e as u16
    };
    cpu.registers.f = Flags {
        zero: false,
        subtract: false,
        half_carry: sp % 0x10 + (e as u16) % 0x10 > 0x0F,
        carry: sp % 0x100 + (e as u16) % 0x100 > 0xFF,
    };
    target.set_value(cpu, sp.wrapping_add(offset));
    proof {
        assert(cpu@ =~~= spec_ld_add(old(cpu)@, target));
    }
    match target {
        Target16::SP => 16,
        _ => 12,
    }
}

/// The decimal adjustments DAA applies: 0x06 for the low digit and 0x60
/// for the high digit, chosen from the flags and, after an addition, from
/// the value of A.
pub open spec fn daa_low_adjust(a: u8, f: Flags) -> u8 {
    if f.subtract {
        if f.half_carry {
            0x06
        } else {
            0
        }
    } else {
        if f.half_carry || a % 0x10 > 0x09 {
            0x06
        } else {
            0
        }
    }
}

pub open spec fn daa_high_adjust(a: u8, f: Flags) -> u8 {
    if f.subtract {
        if f.carry {
            0x60
        } else {
            0
        }
    } else {
        if f.carry || a > 0x99 {
            0x60
        } else {
            0
        }
    }
}

/// A after DAA: the adjustments are added after an addition and
/// subtracted after a subtraction.
pub open spec fn daa_result(a: u8, f: Flags) -> u8 {
    if f.subtract {
        vstd::wrapping::u8_specs::wrapping_sub(
            vstd::wrapping::u8_specs::wrapping_sub(a, daa_low_adjust(a, f)),
            daa_high_adjust(a, f),
        )
    } else {
        vstd::wrapping::u8_specs::wrapping_add(
            vstd::wrapping::u8_specs::wrapping_add(a, daa_low_adjust(a, f)),
            daa_high_adjust(a, f),
        )
    }
}

/// Flags after DAA: Z from the result, N untouched, H cleared, C set after
/// an addition that needed the high adjustment, untouched after a
/// subtraction.
pub open spec fn daa_flags(a: u8, f: Flags) -> Flags {
    Flags {
        zero: daa_result(a, f) == 0,
        subtract: f.subtract,
        half_carry: false,
        carry: if f.subtract {
            f.carry
        } else {
            f.carry || a > 0x99
        },
    }
}

/// The machine after DAA.
pub open spec fn spec_daa(s: CpuState) -> CpuState {
    s.with_regs(
        Registers { a: daa_result(s.regs.a, s.regs.f), f: daa_flags(s.regs.a, s.regs.f), ..s.regs },
    )
}

/// DAA: adjust A back to packed binary-coded decimal after an 8-bit
/// addition or subtraction.
pub fn daa(cpu: &mut CPU) -> (cycles: u8)
    requires
        old(cpu).wf(),
    ensures
        final(cpu).wf(),
        final(cpu)@ == spec_daa(old(cpu)@),
        cycles == 4,
{
    let a = cpu.registers.a;
    let f = cpu.registers.f;
    let low_adjust: u8 = if f.subtract {
        if f.half_carry {
            0x06
        } else {
            0
        }
    } else {
        if f.half_carry || a % 0x10 > 0x09 {
            0x06
        } else {
            0
        }
    };
    let high_adjust: u8 = if f.subtract {
        if f.carry {
            0x60
        } else {
            0
        }
    } else {
        if f.carry || a > 0x99 {
            0x60
        } else {
            0
        }
    };
    let result = if f.subtract {
        a.wrapping_sub(low_adjust).wrapping_sub(high_adjust)
    } else {
        a.wrapping_add(low_adjust).wrapping_add(high_adjust)
    };
    cpu.registers.a = result;
    cpu.registers.f = Flags {
        zero: result == 0,
        subtract: f.subtract,
        half_carry: false,
        carry: if f.subtract {
            f.carry
        } else {
            f.carry || a > 0x99
        },
    };
    proof {
        assert(cpu@ =~~= spec_daa(old(cpu)@));
    }
    4
}

/// Adding an operand to A and subtracting it again restores A exactly;
/// the flags of each step follow the documented tables `add_flags` and
/// `sub_flags` by the contracts of ADD and SUB.
pub proof fn lemma_add_sub_round_trip(a: u8, v: u8)
    ensures
        sub_result(((a + v) % 0x100) as u8, v) == a,
        sub_flags(((a + v) % 0x100) as u8, v).carry == (a + v > 0xFF),
{
    assert(((a + v) % 0x100) < 0x100);
    if a + v > 0xFF {
        assert((a + v) % 0x100 == a + v - 0x100) by (nonlinear_arith)
            requires
                0x100 <= a + v < 0x200,
        ;
    } else {
        assert((a + v) % 0x100 == a + v) by (nonlinear_arith)
            requires
                0 <= a + v < 0x100,
        ;
    }
}

} // verus!
