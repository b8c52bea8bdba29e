//! Control flow: JP, JR, CALL, RET, RETI and RST.
//!
//! Conditional variants test one of NZ, Z, NC, C against the flags before
//! the jump; a taken branch costs more than one not taken.  CALL pushes
//! the address after its immediate; RET pops it back; RETI additionally
//! raises IME at once; RST jumps to one of the eight fixed vectors.

use vstd::prelude::*;

use crate::cpu::CPU;
use crate::cpu::CpuState;
use crate::cpu::spec_pop_word_state;
use crate::cpu::spec_pop_word_value;
use crate::cpu::spec_push_word;
use crate::wadd16;
use super::add::sign_extend;
use super::targets::Condition;
use super::targets::Target16;
use super::targets::condition_holds;
use super::targets::target16_fetch;
use super::targets::target16_value;

verus! {

/// The machine after CALL cc,a16: the immediate is always fetched; a
/// taken call pushes the address after it and jumps.
pub open spec fn spec_call(s: CpuState, c: Condition) -> CpuState {
    let address = s.read16(s.pc);
    let s1 = s.with_pc(wadd16(s.pc, 2));
    if condition_holds(s, c) {
        spec_push_word(s1, s1.pc).with_pc(address)
    } else {
        s1
    }
}

/// CALL cc,a16: push the return address and jump, if the condition holds.
pub fn call(cpu: &mut CPU, condition: Condition) -> (cycles: u8)
    requires
        old(cpu).wf(),
    ensures
        final(cpu).wf(),
        final(cpu)@ == spec_call(old(cpu)@, condition),
        cycles == (if condition_holds(old(cpu)@, condition) {
            24u8
        } else {
            12u8
        }),
{
    let address = cpu.next_word();
    if condition.test(cpu) {
        let return_pc = cpu.pc;
        cpu.push_word(return_pc);
        cpu.pc = address;
        proof {
            assert(cpu@ =~~= spec_call(old(cpu)@, condition));
        }
        24
    } else {
        proof {
            assert(cpu@ =~~= spec_call(old(cpu)@, condition));
        }
        12
    }
}

/// The machine after RET cc: a taken return pops PC.
pub open spec fn spec_ret(s: CpuState, c: Condition) -> CpuState {
    if condition_holds(s, c) {
        spec_pop_word_state(s).with_pc(spec_pop_word_value(s))
    } else {
        s
    }
}

/// Cycle cost of RET cc: the unconditional form costs 16; a conditional
/// one costs 20 taken and 8 not taken.
pub open spec fn ret_cycles(s: CpuState, c: Condition) -> u8 {
    if c is Always {
        16
    } else if condition_holds(s, c) {
        20
    } else {
        8
    }
}

/// RET cc: pop the return address into PC, if the condition holds.
pub fn ret(cpu: &mut CPU, condition: Condition) -> (cycles: u8)
    requires
        old(cpu).wf(),
    ensures
        final(cpu).wf(),
        final(cpu)@ == spec_ret(old(cpu)@, condition),
        cycles == ret_cycles(old(cpu)@, condition),
{
    if condition.test(cpu) {
        let address = cpu.pop_word();
        cpu.pc = address;
    }
    proof {
        assert(cpu@ =~~= spec_ret(old(cpu)@, condition));
    }
    match condition {
        Condition::Always => 16,
        _ => {
            if condition.test(cpu) {
                20
            } else {
                8
            }
        },
    }
}

/// The machine after RETI: the return, and IME raised at once — no
/// one-instruction delay.
pub open spec fn spec_reti(s: CpuState) -> CpuState {
    CpuState { ime: true, ..spec_pop_word_state(s).with_pc(spec_pop_word_value(s)) }
}

/// RETI: return and enable interrupts immediately.
pub fn reti(cpu: &mut CPU) -> (cycles: u8)
    requires
        old(cpu).wf(),
    ensures
        final(cpu).wf(),
        final(cpu)@ == spec_reti(old(cpu)@),
        cycles == 16,
{
    let address = cpu.pop_word();
    cpu.pc = address;
    cpu.ime = true;
    proof {
        assert(cpu@ =~~= spec_reti(old(cpu)@));
    }
    16
}

/// The machine after RST vec: the current PC is pushed and the fixed
/// vector becomes PC.
pub open spec fn spec_rst(s: CpuState, address: u16) -> CpuState {
    spec_push_word(s, s.pc).with_pc(address)
}

/// RST vec: call one of the eight fixed restart vectors.
pub fn rst(cpu: &mut CPU, address: u16) -> (cycles: u8)
    requires
        old(cpu).wf(),
    ensures
        final(cpu).wf(),
        final(cpu)@ == spec_rst(old(cpu)@, address),
        cycles == 16,
{
    let return_pc = cpu.pc;
    cpu.push_word(return_pc);
    cpu.pc = address;
    proof {
        assert(cpu@ =~~= spec_rst(old(cpu)@, address));
    }
    16
}

/// The machine after JR cc,e8: the offset byte is always fetched; a taken
/// jump adds it, sign-extended, to the PC after the instruction.
pub open spec fn spec_jr(s: CpuState, c: Condition) -> CpuState {
    let offset = s.read8(s.pc);
    let s1 = s.with_pc(wadd16(s.pc, 1));
    if condition_holds(s, c) {
        s1.with_pc(wadd16(s1.pc, sign_extend(offset)))
    } else {
        s1
    }
}

/// JR cc,e8: jump by a signed byte relative to the next instruction.
pub fn jr(cpu: &mut CPU, condition: Condition) -> (cycles: u8)
    requires
        old(cpu).wf(),
    ensures
        final(cpu).wf(),
        final(cpu)@ == spec_jr(old(cpu)@, condition),
        cycles == (if condition_holds(old(cpu)@, condition) {
            12u8
        } else {
            8u8
        }),
{
    let offset = cpu.next_byte();
    let taken = condition.test(cpu);
    if taken {
        let extended: u16 = if offset < 0x80 {
            offset as u16
        } else {
            0xFF00 + offset as u16
        };
        cpu.pc = cpu.pc.wrapping_add(extended);
    }
    proof {
        assert(cpu@ =~~= spec_jr(old(cpu)@, condition));
    }
    if taken {
        12
    } else {
        8
    }
}

/// The machine after JP cc,a16 or JP HL: the operand is fetched; a taken
/// jump makes it the PC.
pub open spec fn spec_jp(s: CpuState, c: Condition, t: Target16) -> CpuState {
    let address = target16_value(s, t);
    let s1 = target16_fetch(s, t);
    if condition_holds(s, c) {
        s1.with_pc(address)
    } else {
        s1
    }
}

/// Cycle cost of JP: 4 through HL, otherwise 16 taken and 12 not taken.
pub open spec fn jp_cycles(s: CpuState, c: Condition, t: Target16) -> u8 {
    if t is HL {
        4
    } else if condition_holds(s, c) {
        16
    } else {
        12
    }
}

/// JP cc,a16 and JP HL: jump to the operand, if the condition holds.
pub fn jp(cpu: &mut CPU, condition: Condition, target: Target16) -> (cycles: u8)
    requires
        old(cpu).wf(),
    ensures
        final(cpu).wf(),
        final(cpu)@ == spec_jp(old(cpu)@, condition, target),
        cycles == jp_cycles(old(cpu)@, condition, target),
{
    let address = target.get_value(cpu);
    let taken = condition.test(cpu);
    if taken {
        cpu.pc = address;
    }
    proof {
        assert(cpu@ =~~= spec_jp(old(cpu)@, condition, target));
    }
    match target {
        Target16::HL => 4,
        _ => {
            if taken {
                16
            } else {
                12
            }
        },
    }
}

} // verus!
