//! The operand model.
//!
//! An 8-bit operand ("target") is a register, a register-indirect cell, an
//! immediate byte, a high-page cell, or an absolute cell; a 16-bit operand
//! is a register pair, SP, an immediate word or an absolute cell.  Each
//! exposes fetch and store; immediate forms advance PC by their width.

use vstd::prelude::*;

use crate::cpu::CPU;
use crate::cpu::CpuState;
use crate::push_char;
use crate::wadd16;
use crate::registers::Registers;
use crate::registers::flags_of_byte;

verus! {

/// An 8-bit operand.
#[derive(Clone, Copy, Debug, PartialEq, Eq, Structural)]
pub enum Target {
    A,
    B,
    C,
    D,
    E,
    H,
    L,
    /// The high-page cell at 0xFF00 + C.
    MC,
    /// The cell BC points at.
    MBC,
    /// The cell DE points at.
    MDE,
    /// The cell HL points at.
    MHL,
    /// The immediate byte after the opcode.
    Immediate,
    /// The high-page cell at 0xFF00 plus the immediate byte.
    ZeroImmediate,
    /// The cell at the immediate 16-bit address.
    MImmediate,
}

/// How many immediate bytes fetching the operand consumes.
pub open spec fn target_width(t: Target) -> u16 {
    match t {
        Target::Immediate => 1,
        Target::ZeroImmediate => 1,
        Target::MImmediate => 2,
        _ => 0,
    }
}

/// The byte the operand denotes, before PC moves.
pub open spec fn target_value(s: CpuState, t: Target) -> u8 {
    match t {
        Target::A => s.regs.a,
        Target::B => s.regs.b,
        Target::C => s.regs.c,
        Target::D => s.regs.d,
        Target::E => s.regs.e,
        Target::H => s.regs.h,
        Target::L => s.regs.l,
        Target::MC => s.read8((0xFF00 + s.regs.c) as u16),
        Target::MBC => s.read8(s.regs.bc_spec()),
        Target::MDE => s.read8(s.regs.de_spec()),
        Target::MHL => s.read8(s.regs.hl_spec()),
        Target::Immediate => s.read8(s.pc),
        Target::ZeroImmediate => s.read8((0xFF00 + s.read8(s.pc)) as u16),
        Target::MImmediate => s.read8(s.read16(s.pc)),
    }
}

/// The state after the operand is fetched: PC has moved past any immediate
/// bytes; nothing else changes.
pub open spec fn target_fetch(s: CpuState, t: Target) -> CpuState {
    s.with_pc(wadd16(s.pc, target_width(t)))
}

/// The state after a byte is stored into the operand: PC has moved past
/// any immediate bytes, and the byte has landed in the register or on the
/// bus.
pub open spec fn target_store(s: CpuState, t: Target, value: u8) -> CpuState {
    match t {
        Target::A => s.with_regs(Registers { a: value, ..s.regs }),
        Target::B => s.with_regs(Registers { b: value, ..s.regs }),
        Target::C => s.with_regs(Registers { c: value, ..s.regs }),
        Target::D => s.with_regs(Registers { d: value, ..s.regs }),
        Target::E => s.with_regs(Registers { e: value, ..s.regs }),
        Target::H => s.with_regs(Registers { h: value, ..s.regs }),
        Target::L => s.with_regs(Registers { l: value, ..s.regs }),
        Target::MC => s.write8((0xFF00 + s.regs.c) as u16, value),
        Target::MBC => s.write8(s.regs.bc_spec(), value),
        Target::MDE => s.write8(s.regs.de_spec(), value),
        Target::MHL => s.write8(s.regs.hl_spec(), value),
        Target::Immediate => s,
        Target::ZeroImmediate => s.with_pc(wadd16(s.pc, 1)).write8(
            (0xFF00 + s.read8(s.pc)) as u16,
            value,
        ),
        Target::MImmediate => s.with_pc(wadd16(s.pc, 2)).write8(s.read16(s.pc), value),
    }
}

impl Target {
    /// Fetch the operand: yields its byte and advances PC past any
    /// immediate bytes.
    pub fn get_value(self, cpu: &mut CPU) -> (value: u8)
        requires
            old(cpu).wf(),
        ensures
            final(cpu).wf(),
            value == target_value(old(cpu)@, self),
            final(cpu)@ == target_fetch(old(cpu)@, self),
    {
        let value = match self {
            Target::A => cpu.registers.a,
            Target::B => cpu.registers.b,
            Target::C => cpu.registers.c,
            Target::D => cpu.registers.d,
            Target::E => cpu.registers.e,
            Target::H => cpu.registers.h,
            Target::L => cpu.registers.l,
            Target::MC => cpu.bus.read(0xFF00 + cpu.registers.c as u16),
            Target::MBC => {
                let address = cpu.registers.bc();
                cpu.bus.read(address)
            },
            Target::MDE => {
                let address = cpu.registers.de();
                cpu.bus.read(address)
            },
            Target::MHL => {
                let address = cpu.registers.hl();
                cpu.bus.read(address)
            },
            Target::Immediate => cpu.next_byte(),
            Target::ZeroImmediate => {
                let address = 0xFF00 + cpu.next_byte() as u16;
                cpu.bus.read(address)
            },
            Target::MImmediate => {
                let address = cpu.next_word();
                cpu.bus.read(address)
            },
        };
        proof {
            assert(cpu@ =~~= target_fetch(old(cpu)@, self));
        }
        value
    }

    /// Store a byte into the operand, advancing PC past any immediate
    /// bytes.  An immediate byte is no store destination.
    pub fn set_value(self, cpu: &mut CPU, value: u8)
        requires
            old(cpu).wf(),
            !(self is Immediate),
        ensures
            final(cpu).wf(),
            final(cpu)@ == target_store(old(cpu)@, self, value),
    {
        match self {
            Target::A => cpu.registers.a = value,
            Target::B => cpu.registers.b = value,
            Target::C => cpu.registers.c = value,
            Target::D => cpu.registers.d = value,
            Target::E => cpu.registers.e = value,
            Target::H => cpu.registers.h = value,
            Target::L => cpu.registers.l = value,
            Target::MC => cpu.bus.write(0xFF00 + cpu.registers.c as u16, value),
            Target::MBC => {
                let address = cpu.registers.bc();
                cpu.bus.write(address, value);
            },
            Target::MDE => {
                let address = cpu.registers.de();
                cpu.bus.write(address, value);
            },
            Target::MHL => {
                let address = cpu.registers.hl();
                cpu.bus.write(address, value);
            },
            Target::ZeroImmediate => {
                let address = 0xFF00 + cpu.next_byte() as u16;
                cpu.bus.write(address, value);
            },
            Target::MImmediate => {
                let address = cpu.next_word();
                cpu.bus.write(address, value);
            },
            Target::Immediate => {},
        }
        proof {
            assert(cpu@ =~~= target_store(old(cpu)@, self, value));
        }
    }
}

/// A 16-bit operand.
#[derive(Clone, Copy, Debug, PartialEq, Eq, Structural)]
pub enum Target16 {
    AF,
    BC,
    DE,
    HL,
    SP,
    /// The word HL points at.
    MHL,
    /// The immediate word after the opcode.
    Immediate,
    /// The word at the immediate 16-bit address.
    MImmediate,
}

/// How many immediate bytes fetching the operand consumes.
pub open spec fn target16_width(t: Target16) -> u16 {
    match t {
        Target16::Immediate => 2,
        Target16::MImmediate => 2,
        _ => 0,
    }
}

/// The word the operand denotes, before PC moves.
pub open spec fn target16_value(s: CpuState, t: Target16) -> u16 {
    match t {
        Target16::AF => s.regs.af_spec(),
        Target16::BC => s.regs.bc_spec(),
        Target16::DE => s.regs.de_spec(),
        Target16::HL => s.regs.hl_spec(),
        Target16::SP => s.sp,
        Target16::MHL => s.read16(s.regs.hl_spec()),
        Target16::Immediate => s.read16(s.pc),
        Target16::MImmediate => s.read16(s.read16(s.pc)),
    }
}

/// The state after the operand is fetched.
pub open spec fn target16_fetch(s: CpuState, t: Target16) -> CpuState {
    s.with_pc(wadd16(s.pc, target16_width(t)))
}

/// The state after a little-endian word lands on the bus at `address`.
pub open spec fn write16(s: CpuState, address: u16, value: u16) -> CpuState {
    s.write8(address, (value % 0x100) as u8).write8(wadd16(address, 1), (value / 0x100) as u8)
}

/// The state after a word is stored into the operand.  Storing into AF
/// discards the low nibble of the flag byte.
pub open spec fn target16_store(s: CpuState, t: Target16, value: u16) -> CpuState {
    match t {
        Target16::AF => s.with_regs(
            Registers {
                a: (value / 0x100) as u8,
                f: flags_of_byte(value as u8),
                ..s.regs
            },
        ),
        Target16::BC => s.with_regs(
            Registers { b: (value / 0x100) as u8, c: (value % 0x100) as u8, ..s.regs },
        ),
        Target16::DE => s.with_regs(
            Registers { d: (value / 0x100) as u8, e: (value % 0x100) as u8, ..s.regs },
        ),
        Target16::HL => s.with_regs(
            Registers { h: (value / 0x100) as u8, l: (value % 0x100) as u8, ..s.regs },
        ),
        Target16::SP => CpuState { sp: value, ..s },
        Target16::MImmediate => write16(s.with_pc(wadd16(s.pc, 2)), s.read16(s.pc), value),
        Target16::MHL => s,
        Target16::Immediate => s,
    }
}

impl Target16 {
    /// Fetch the operand: yields its word and advances PC past any
    /// immediate bytes.
    pub fn get_value(self, cpu: &mut CPU) -> (value: u16)
        requires
            old(cpu).wf(),
        ensures
            final(cpu).wf(),
            value == target16_value(old(cpu)@, self),
            final(cpu)@ == target16_fetch(old(cpu)@, self),
    {
        let value = match self {
            Target16::AF => cpu.registers.af(),
            Target16::BC => cpu.registers.bc(),
            Target16::DE => cpu.registers.de(),
            Target16::HL => cpu.registers.hl(),
            Target16::SP => cpu.sp,
            Target16::MHL => {
                let address = cpu.registers.hl();
                cpu.bus.read_word(address)
            },
            Target16::Immediate => cpu.next_word(),
            Target16::MImmediate => {
                let address = cpu.next_word();
                cpu.bus.read_word(address)
            },
        };
        proof {
            assert(cpu@ =~~= target16_fetch(old(cpu)@, self));
        }
        value
    }

    /// Store a word into the operand, advancing PC past any immediate
    /// bytes.  The word HL points at and an immediate word are no store
    /// destinations.
    pub fn set_value(self, cpu: &mut CPU, value: u16)
        requires
            old(cpu).wf(),
            !(self is MHL),
            !(self is Immediate),
        ensures
            final(cpu).wf(),
            final(cpu)@ == target16_store(old(cpu)@, self, value),
    {
        match self {
            Target16::AF => cpu.registers.set_af(value),
            Target16::BC => cpu.registers.set_bc(value),
            Target16::DE => cpu.registers.set_de(value),
            Target16::HL => cpu.registers.set_hl(value),
            Target16::SP => cpu.sp = value,
            Target16::MImmediate => {
                let address = cpu.next_word();
                cpu.bus.write_word(address, value);
            },
            Target16::MHL => {},
            Target16::Immediate => {},
        }
        proof {
            assert(cpu@ =~~= target16_store(old(cpu)@, self, value));
        }
    }
}

/// Whether the operand is one of the seven plain registers.
pub open spec fn target_is_register(t: Target) -> bool {
    match t {
        Target::A => true,
        Target::B => true,
        Target::C => true,
        Target::D => true,
        Target::E => true,
        Target::H => true,
        Target::L => true,
        _ => false,
    }
}

/// Extra cycles an instruction pays to reach the operand: nothing for a
/// register, one memory access for an indirect cell or an immediate byte,
/// and more for the high-page and absolute forms.
pub open spec fn target_cost(t: Target) -> u8 {
    match t {
        Target::A => 0,
        Target::B => 0,
        Target::C => 0,
        Target::D => 0,
        Target::E => 0,
        Target::H => 0,
        Target::L => 0,
        Target::MC => 4,
        Target::MBC => 4,
        Target::MDE => 4,
        Target::MHL => 4,
        Target::Immediate => 4,
        Target::ZeroImmediate => 8,
        Target::MImmediate => 12,
    }
}

/// Cycle cost of an 8-bit arithmetic or logic instruction: 4 on a
/// register, 8 through memory or an immediate.
pub open spec fn arith_cycles(t: Target) -> u8 {
    if target_is_register(t) {
        4
    } else {
        8
    }
}

impl Target {
    /// Runtime counterpart of `target_is_register`.
    pub fn is_register(self) -> (r: bool)
        ensures
            r == target_is_register(self),
    {
        match self {
            Target::A => true,
            Target::B => true,
            Target::C => true,
            Target::D => true,
            Target::E => true,
            Target::H => true,
            Target::L => true,
            _ => false,
        }
    }

    /// Runtime counterpart of `target_cost`.
    pub fn cost(self) -> (c: u8)
        ensures
            c == target_cost(self),
    {
        match self {
            Target::A => 0,
            Target::B => 0,
            Target::C => 0,
            Target::D => 0,
            Target::E => 0,
            Target::H => 0,
            Target::L => 0,
            Target::MC => 4,
            Target::MBC => 4,
            Target::MDE => 4,
            Target::MHL => 4,
            Target::Immediate => 4,
            Target::ZeroImmediate => 8,
            Target::MImmediate => 12,
        }
    }
}

/// A branch condition over the Zero and Carry flags.
#[derive(Clone, Copy, Debug, PartialEq, Eq, Structural)]
pub enum Condition {
    NotZero,
    Zero,
    NotCarry,
    Carry,
    Always,
}

/// Whether the condition holds of the current flags.
pub open spec fn condition_holds(s: CpuState, c: Condition) -> bool {
    match c {
        Condition::NotZero => !s.regs.f.zero,
        Condition::Zero => s.regs.f.zero,
        Condition::NotCarry => !s.regs.f.carry,
        Condition::Carry => s.regs.f.carry,
        Condition::Always => true,
    }
}

impl Condition {
    /// Test the condition against the flag cell.
    pub fn test(&self, cpu: &CPU) -> (holds: bool)
        ensures
            holds == condition_holds(cpu@, *self),
    {
        match self {
            Condition::NotZero => !cpu.registers.f.zero(),
            Condition::Zero => cpu.registers.f.zero(),
            Condition::NotCarry => !cpu.registers.f.carry(),
            Condition::Carry => cpu.registers.f.carry(),
            Condition::Always => true,
        }
    }
}

/// One hexadecimal digit, upper case.
pub open spec fn hex_digit(n: u8) -> char {
    if n == 0 {
        '0'
    } else if n == 1 {
        '1'
    } else if n == 2 {
        '2'
    } else if n == 3 {
        '3'
    } else if n == 4 {
        '4'
    } else if n == 5 {
        '5'
    } else if n == 6 {
        '6'
    } else if n == 7 {
        '7'
    } else if n == 8 {
        '8'
    } else if n == 9 {
        '9'
    } else if n == 10 {
        'A'
    } else if n == 11 {
        'B'
    } else if n == 12 {
        'C'
    } else if n == 13 {
        'D'
    } else if n == 14 {
        'E'
    } else {
        'F'
    }
}

/// The two hexadecimal digits of a byte.
pub open spec fn hex_byte(b: u8) -> Seq<char> {
    seq![hex_digit(b / 16), hex_digit(b % 16)]
}

/// The four hexadecimal digits of a word.
pub open spec fn hex_word(w: u16) -> Seq<char> {
    hex_byte((w / 0x100) as u8) + hex_byte((w % 0x100) as u8)
}

/// Runtime counterpart of `hex_digit`.
fn hex_digit_char(n: u8) -> (c: char)
    requires
        n < 16,
    ensures
        c == hex_digit(n),
{
    match n {
        0 => '0',
        1 => '1',
        2 => '2',
        3 => '3',
        4 => '4',
        5 => '5',
        6 => '6',
        7 => '7',
        8 => '8',
        9 => '9',
        10 => 'A',
        11 => 'B',
        12 => 'C',
        13 => 'D',
        14 => 'E',
        _ => 'F',
    }
}

/// Append the two hexadecimal digits of a byte.
fn push_hex_byte(text: &mut String, b: u8)
    ensures
        final(text)@ == old(text)@ + hex_byte(b),
{
    push_char(text, hex_digit_char(b / 16));
    push_char(text, hex_digit_char(b % 16));
    proof {
        assert(text@ =~= old(text)@ + hex_byte(b));
    }
}

/// How an 8-bit operand prints in a trace: its assembler spelling, with
/// immediates shown as the hexadecimal bytes at PC.
pub open spec fn target_describe(s: CpuState, t: Target) -> Seq<char> {
    match t {
        Target::A => seq!['A'],
        Target::B => seq!['B'],
        Target::C => seq!['C'],
        Target::D => seq!['D'],
        Target::E => seq!['E'],
        Target::H => seq!['H'],
        Target::L => seq!['L'],
        Target::MC => seq!['(', 'F', 'F', '0', '0', ' ', '+', ' ', 'C', ')'],
        Target::MBC => seq!['(', 'B', 'C', ')'],
        Target::MDE => seq!['(', 'D', 'E', ')'],
        Target::MHL => seq!['(', 'H', 'L', ')'],
        Target::Immediate => hex_byte(s.read8(s.pc)),
        Target::ZeroImmediate => seq!['['] + hex_byte(s.read8(s.pc)) + seq![']'],
        Target::MImmediate => seq!['['] + hex_word(s.read16(s.pc)) + seq![']'],
    }
}

/// How a 16-bit operand prints in a trace.
pub open spec fn target16_describe(s: CpuState, t: Target16) -> Seq<char> {
    match t {
        Target16::AF => seq!['A', 'F'],
        Target16::BC => seq!['B', 'C'],
        Target16::DE => seq!['D', 'E'],
        Target16::HL => seq!['H', 'L'],
        Target16::SP => seq!['S', 'P'],
        Target16::MHL => seq!['[', 'H', 'L', ']'],
        Target16::Immediate => hex_word(s.read16(s.pc)),
        Target16::MImmediate => seq!['U', 'n', 'k', 'n', 'o', 'w', 'n'],
    }
}

impl Target {
    /// The operand's spelling for a trace line, immediates read from the
    /// bus at PC without moving it.
    pub fn debug_fmt(&self, cpu: &CPU) -> (text: String)
        requires
            cpu.wf(),
        ensures
            text@ == target_describe(cpu@, *self),
    {
        let mut text = String::new();
        match self {
            Target::A => push_char(&mut text, 'A'),
            Target::B => push_char(&mut text, 'B'),
            Target::C => push_char(&mut text, 'C'),
            Target::D => push_char(&mut text, 'D'),
            Target::E => push_char(&mut text, 'E'),
            Target::H => push_char(&mut text, 'H'),
            Target::L => push_char(&mut text, 'L'),
            Target::MC => {
                push_char(&mut text, '(');
                push_char(&mut text, 'F');
                push_char(&mut text, 'F');
                push_char(&mut text, '0');
                push_char(&mut text, '0');
                push_char(&mut text, ' ');
                push_char(&mut text, '+');
                push_char(&mut text, ' ');
                push_char(&mut text, 'C');
                push_char(&mut text, ')');
            },
            Target::MBC => {
                push_char(&mut text, '(');
                push_char(&mut text, 'B');
                push_char(&mut text, 'C');
                push_char(&mut text, ')');
            },
            Target::MDE => {
                push_char(&mut text, '(');
                push_char(&mut text, 'D');
                push_char(&mut text, 'E');
                push_char(&mut text, ')');
            },
            Target::MHL => {
                push_char(&mut text, '(');
                push_char(&mut text, 'H');
                push_char(&mut text, 'L');
                push_char(&mut text, ')');
            },
            Target::Immediate => {
                let byte = cpu.peek_byte();
                push_hex_byte(&mut text, byte);
            },
            Target::ZeroImmediate => {
                let byte = cpu.peek_byte();
                push_char(&mut text, '[');
                push_hex_byte(&mut text, byte);
                push_char(&mut text, ']');
            },
            Target::MImmediate => {
                let word = cpu.peek_word();
                push_char(&mut text, '[');
                push_hex_byte(&mut text, (word / 0x100) as u8);
                push_hex_byte(&mut text, (word % 0x100) as u8);
                push_char(&mut text, ']');
            },
        }
        proof {
            assert(text@ =~= target_describe(cpu@, *self));
        }
        text
    }
}

impl Target16 {
    /// The operand's spelling for a trace line.
    pub fn debug_fmt(&self, cpu: &CPU) -> (text: String)
        requires
            cpu.wf(),
        ensures
            text@ == target16_describe(cpu@, *self),
    {
        let mut text = String::new();
        match self {
            Target16::AF => {
                push_char(&mut text, 'A');
                push_char(&mut text, 'F');
            },
            Target16::BC => {
                push_char(&mut text, 'B');
                push_char(&mut text, 'C');
            },
            Target16::DE => {
                push_char(&mut text, 'D');
                push_char(&mut text, 'E');
            },
            Target16::HL => {
                push_char(&mut text, 'H');
                push_char(&mut text, 'L');
            },
            Target16::SP => {
                push_char(&mut text, 'S');
                push_char(&mut text, 'P');
            },
            Target16::MHL => {
                push_char(&mut text, '[');
                push_char(&mut text, 'H');
                push_char(&mut text, 'L');
                push_char(&mut text, ']');
            },
            Target16::Immediate => {
                let word = cpu.peek_word();
                push_hex_byte(&mut text, (word / 0x100) as u8);
                push_hex_byte(&mut text, (word % 0x100) as u8);
            },
            Target16::MImmediate => {
                push_char(&mut text, 'U');
                push_char(&mut text, 'n');
                push_char(&mut text, 'k');
                push_char(&mut text, 'n');
                push_char(&mut text, 'o');
                push_char(&mut text, 'w');
                push_char(&mut text, 'n');
            },
        }
        proof {
            assert(text@ =~= target16_describe(cpu@, *self));
        }
        text
    }
}

} // verus!
