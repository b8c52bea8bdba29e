//! Opcode decode and dispatch.
//!
//! `spec_decode` is the 256-entry base table in mathematical form: eleven
//! reserved slots decode to `Undefined` and surface as faults.  The
//! CB-prefixed extension decodes in the bit-operation family.
//! `spec_execute` gives the meaning of every decoded instruction as a
//! function on the machine state, together with its documented cycle
//! cost; `execute_opcode` is proved against it.

pub mod add;
pub mod bits;
pub mod cp;
pub mod inc;
pub mod interrupt;
pub mod jr;
pub mod jump;
pub mod ld;
pub mod logic;
pub mod stack;
pub mod targets;
pub mod xor;

use vstd::prelude::*;

use crate::cpu::CPU;
use crate::cpu::CpuError;
use crate::cpu::CpuState;
use crate::wsub16;
use self::targets::Condition;
use self::targets::Target;
use self::targets::Target16;
use self::targets::arith_cycles;
use self::targets::condition_holds;
use self::targets::target_is_register;

verus! {

/// One decoded instruction of the base table.
#[derive(Clone, Copy, Debug, PartialEq, Eq, Structural)]
pub enum Opcode {
    NOP,
    STOP,
    HALT,
    DI,
    EI,
    LD(Target, Target),
    LD16(Target16, Target16),
    LDD(Target, Target),
    LDI(Target, Target),
    LDH(Target, Target),
    ADD(Target),
    ADC(Target),
    SUB(Target),
    SBC(Target),
    ADD16(Target16),
    /// ADD SP,e8: the signed immediate added into SP.
    ADDSP,
    /// LD HL,SP+e8: the signed immediate added to SP, into HL.
    LDHLSP,
    AND(Target),
    OR(Target),
    XOR(Target),
    CP(Target),
    INC(Target),
    DEC(Target),
    INC16(Target16),
    DEC16(Target16),
    DAA,
    CPL,
    SCF,
    CCF,
    RLCA,
    RLA,
    RRCA,
    RRA,
    PUSH(Target16),
    POP(Target16),
    JP(Condition, Target16),
    JR(Condition),
    CALL(Condition),
    RET(Condition),
    RETI,
    RST(u16),
    PrefixCB,
    /// A reserved slot of the base table, carrying its opcode byte.
    Undefined(u8),
}

/// Operand shapes the handlers accept: decode never pairs a store
/// destination with an immediate operand, and 16-bit arithmetic never
/// works through memory.
pub open spec fn opcode_wf(op: Opcode) -> bool {
    match op {
        Opcode::LD(t, _) => !(t is Immediate),
        Opcode::LD16(t, _) => !(t is MHL) && !(t is Immediate),
        Opcode::LDD(t, _) => !(t is Immediate),
        Opcode::LDI(t, _) => !(t is Immediate),
        Opcode::LDH(t, _) => !(t is Immediate),
        Opcode::INC(t) => !(t is Immediate),
        Opcode::DEC(t) => !(t is Immediate),
        Opcode::INC16(t) => !(t is MHL) && !(t is Immediate) && !(t is MImmediate),
        Opcode::DEC16(t) => !(t is MHL) && !(t is Immediate) && !(t is MImmediate),
        Opcode::PUSH(t) => !(t is Immediate) && !(t is MImmediate),
        Opcode::POP(t) => !(t is MHL) && !(t is Immediate) && !(t is MImmediate),
        _ => true,
    }
}

/// The base decode table.
pub open spec fn spec_decode(byte: u8) -> Opcode {
    match byte {
        0x00 => Opcode::NOP,
        0x01 => Opcode::LD16(Target16::BC, Target16::Immediate),
        0x02 => Opcode::LD(Target::MBC, Target::A),
        0x03 => Opcode::INC16(Target16::BC),
        0x04 => Opcode::INC(Target::B),
        0x05 => Opcode::DEC(Target::B),
        0x06 => Opcode::LD(Target::B, Target::Immediate),
        0x07 => Opcode::RLCA,
        0x08 => Opcode::LD16(Target16::MImmediate, Target16::SP),
        0x09 => Opcode::ADD16(Target16::BC),
        0x0A => Opcode::LD(Target::A, Target::MBC),
        0x0B => Opcode::DEC16(Target16::BC),
        0x0C => Opcode::INC(Target::C),
        0x0D => Opcode::DEC(Target::C),
        0x0E => Opcode::LD(Target::C, Target::Immediate),
        0x0F => Opcode::RRCA,
        0x10 => Opcode::STOP,
        0x11 => Opcode::LD16(Target16::DE, Target16::Immediate),
        0x12 => Opcode::LD(Target::MDE, Target::A),
        0x13 => Opcode::INC16(Target16::DE),
        0x14 => Opcode::INC(Target::D),
        0x15 => Opcode::DEC(Target::D),
        0x16 => Opcode::LD(Target::D, Target::Immediate),
        0x17 => Opcode::RLA,
        0x18 => Opcode::JR(Condition::Always),
        0x19 => Opcode::ADD16(Target16::DE),
        0x1A => Opcode::LD(Target::A, Target::MDE),
        0x1B => Opcode::DEC16(Target16::DE),
        0x1C => Opcode::INC(Target::E),
        0x1D => Opcode::DEC(Target::E),
        0x1E => Opcode::LD(Target::E, Target::Immediate),
        0x1F => Opcode::RRA,
        0x20 => Opcode::JR(Condition::NotZero),
        0x21 => Opcode::LD16(Target16::HL, Target16::Immediate),
        0x22 => Opcode::LDI(Target::MHL, Target::A),
        0x23 => Opcode::INC16(Target16::HL),
        0x24 => Opcode::INC(Target::H),
        0x25 => Opcode::DEC(Target::H),
        0x26 => Opcode::LD(Target::H, Target::Immediate),
        0x27 => Opcode::DAA,
        0x28 => Opcode::JR(Condition::Zero),
        0x29 => Opcode::ADD16(Target16::HL),
        0x2A => Opcode::LDI(Target::A, Target::MHL),
        0x2B => Opcode::DEC16(Target16::HL),
        0x2C => Opcode::INC(Target::L),
        0x2D => Opcode::DEC(Target::L),
        0x2E => Opcode::LD(Target::L, Target::Immediate),
        0x2F => Opcode::CPL,
        0x30 => Opcode::JR(Condition::NotCarry),
        0x31 => Opcode::LD16(Target16::SP, Target16::Immediate),
        0x32 => Opcode::LDD(Target::MHL, Target::A),
        0x33 => Opcode::INC16(Target16::SP),
        0x34 => Opcode::INC(Target::MHL),
        0x35 => Opcode::DEC(Target::MHL),
        0x36 => Opcode::LD(Target::MHL, Target::Immediate),
        0x37 => Opcode::SCF,
        0x38 => Opcode::JR(Condition::Carry),
        0x39 => Opcode::ADD16(Target16::SP),
        0x3A => Opcode::LDD(Target::A, Target::MHL),
        0x3B => Opcode::DEC16(Target16::SP),
        0x3C => Opcode::INC(Target::A),
        0x3D => Opcode::DEC(Target::A),
        0x3E => Opcode::LD(Target::A, Target::Immediate),
        0x3F => Opcode::CCF,
        0x40 => Opcode::LD(Target::B, Target::B),
        0x41 => Opcode::LD(Target::B, Target::C),
        0x42 => Opcode::LD(Target::B, Target::D),
        0x43 => Opcode::LD(Target::B, Target::E),
        0x44 => Opcode::LD(Target::B, Target::H),
        0x45 => Opcode::LD(Target::B, Target::L),
        0x46 => Opcode::LD(Target::B, Target::MHL),
        0x47 => Opcode::LD(Target::B, Target::A),
        0x48 => Opcode::LD(Target::C, Target::B),
        0x49 => Opcode::LD(Target::C, Target::C),
        0x4A => Opcode::LD(Target::C, Target::D),
        0x4B => Opcode::LD(Target::C, Target::E),
        0x4C => Opcode::LD(Target::C, Target::H),
        0x4D => Opcode::LD(Target::C, Target::L),
        0x4E => Opcode::LD(Target::C, Target::MHL),
        0x4F => Opcode::LD(Target::C, Target::A),
        0x50 => Opcode::LD(Target::D, Target::B),
        0x51 => Opcode::LD(Target::D, Target::C),
        0x52 => Opcode::LD(Target::D, Target::D),
        0x53 => Opcode::LD(Target::D, Target::E),
        0x54 => Opcode::LD(Target::D, Target::H),
        0x55 => Opcode::LD(Target::D, Target::L),
        0x56 => Opcode::LD(Target::D, Target::MHL),
        0x57 => Opcode::LD(Target::D, Target::A),
        0x58 => Opcode::LD(Target::E, Target::B),
        0x59 => Opcode::LD(Target::E, Target::C),
        0x5A => Opcode::LD(Target::E, Target::D),
        0x5B => Opcode::LD(Target::E, Target::E),
        0x5C => Opcode::LD(Target::E, Target::H),
        0x5D => Opcode::LD(Target::E, Target::L),
        0x5E => Opcode::LD(Target::E, Target::MHL),
        0x5F => Opcode::LD(Target::E, Target::A),
        0x60 => Opcode::LD(Target::H, Target::B),
        0x61 => Opcode::LD(Target::H, Target::C),
        0x62 => Opcode::LD(Target::H, Target::D),
        0x63 => Opcode::LD(Target::H, Target::E),
        0x64 => Opcode::LD(Target::H, Target::H),
        0x65 => Opcode::LD(Target::H, Target::L),
        0x66 => Opcode::LD(Target::H, Target::MHL),
        0x67 => Opcode::LD(Target::H, Target::A),
        0x68 => Opcode::LD(Target::L, Target::B),
        0x69 => Opcode::LD(Target::L, Target::C),
        0x6A => Opcode::LD(Target::L, Target::D),
        0x6B => Opcode::LD(Target::L, Target::E),
        0x6C => Opcode::LD(Target::L, Target::H),
        0x6D => Opcode::LD(Target::L, Target::L),
        0x6E => Opcode::LD(Target::L, Target::MHL),
        0x6F => Opcode::LD(Target::L, Target::A),
        0x70 => Opcode::LD(Target::MHL, Target::B),
        0x71 => Opcode::LD(Target::MHL, Target::C),
        0x72 => Opcode::LD(Target::MHL, Target::D),
        0x73 => Opcode::LD(Target::MHL, Target::E),
        0x74 => Opcode::LD(Target::MHL, Target::H),
        0x75 => Opcode::LD(Target::MHL, Target::L),
        0x76 => Opcode::HALT,
        0x77 => Opcode::LD(Target::MHL, Target::A),
        0x78 => Opcode::LD(Target::A, Target::B),
        0x79 => Opcode::LD(Target::A, Target::C),
        0x7A => Opcode::LD(Target::A, Target::D),
        0x7B => Opcode::LD(Target::A, Target::E),
        0x7C => Opcode::LD(Target::A, Target::H),
        0x7D => Opcode::LD(Target::A, Target::L),
        0x7E => Opcode::LD(Target::A, Target::MHL),
        0x7F => Opcode::LD(Target::A, Target::A),
        0x80 => Opcode::ADD(Target::B),
        0x81 => Opcode::ADD(Target::C),
        0x82 => Opcode::ADD(Target::D),
        0x83 => Opcode::ADD(Target::E),
        0x84 => Opcode::ADD(Target::H),
        0x85 => Opcode::ADD(Target::L),
        0x86 => Opcode::ADD(Target::MHL),
        0x87 => Opcode::ADD(Target::A),
        0x88 => Opcode::ADC(Target::B),
        0x89 => Opcode::ADC(Target::C),
        0x8A => Opcode::ADC(Target::D),
        0x8B => Opcode::ADC(Target::E),
        0x8C => Opcode::ADC(Target::H),
        0x8D => Opcode::ADC(Target::L),
        0x8E => Opcode::ADC(Target::MHL),
        0x8F => Opcode::ADC(Target::A),
        0x90 => Opcode::SUB(Target::B),
        0x91 => Opcode::SUB(Target::C),
        0x92 => Opcode::SUB(Target::D),
        0x93 => Opcode::SUB(Target::E),
        0x94 => Opcode::SUB(Target::H),
        0x95 => Opcode::SUB(Target::L),
        0x96 => Opcode::SUB(Target::MHL),
        0x97 => Opcode::SUB(Target::A),
        0x98 => Opcode::SBC(Target::B),
        0x99 => Opcode::SBC(Target::C),
        0x9A => Opcode::SBC(Target::D),
        0x9B => Opcode::SBC(Target::E),
        0x9C => Opcode::SBC(Target::H),
        0x9D => Opcode::SBC(Target::L),
        0x9E => Opcode::SBC(Target::MHL),
        0x9F => Opcode::SBC(Target::A),
        0xA0 => Opcode::AND(Target::B),
        0xA1 => Opcode::AND(Target::C),
        0xA2 => Opcode::AND(Target::D),
        0xA3 => Opcode::AND(Target::E),
        0xA4 => Opcode::AND(Target::H),
        0xA5 => Opcode::AND(Target::L),
        0xA6 => Opcode::AND(Target::MHL),
        0xA7 => Opcode::AND(Target::A),
        0xA8 => Opcode::XOR(Target::B),
        0xA9 => Opcode::XOR(Target::C),
        0xAA => Opcode::XOR(Target::D),
        0xAB => Opcode::XOR(Target::E),
        0xAC => Opcode::XOR(Target::H),
        0xAD => Opcode::XOR(Target::L),
        0xAE => Opcode::XOR(Target::MHL),
        0xAF => Opcode::XOR(Target::A),
        0xB0 => Opcode::OR(Target::B),
        0xB1 => Opcode::OR(Target::C),
        0xB2 => Opcode::OR(Target::D),
        0xB3 => Opcode::OR(Target::E),
        0xB4 => Opcode::OR(Target::H),
        0xB5 => Opcode::OR(Target::L),
        0xB6 => Opcode::OR(Target::MHL),
        0xB7 => Opcode::OR(Target::A),
        0xB8 => Opcode::CP(Target::B),
        0xB9 => Opcode::CP(Target::C),
        0xBA => Opcode::CP(Target::D),
        0xBB => Opcode::CP(Target::E),
        0xBC => Opcode::CP(Target::H),
        0xBD => Opcode::CP(Target::L),
        0xBE => Opcode::CP(Target::MHL),
        0xBF => Opcode::CP(Target::A),
        0xC0 => Opcode::RET(Condition::NotZero),
        0xC1 => Opcode::POP(Target16::BC),
        0xC2 => Opcode::JP(Condition::NotZero, Target16::Immediate),
        0xC3 => Opcode::JP(Condition::Always, Target16::Immediate),
        0xC4 => Opcode::CALL(Condition::NotZero),
        0xC5 => Opcode::PUSH(Target16::BC),
        0xC6 => Opcode::ADD(Target::Immediate),
        0xC7 => Opcode::RST(0x00),
        0xC8 => Opcode::RET(Condition::Zero),
        0xC9 => Opcode::RET(Condition::Always),
        0xCA => Opcode::JP(Condition::Zero, Target16::Immediate),
        0xCB => Opcode::PrefixCB,
        0xCC => Opcode::CALL(Condition::Zero),
        0xCD => Opcode::CALL(Condition::Always),
        0xCE => Opcode::ADC(Target::Immediate),
        0xCF => Opcode::RST(0x08),
        0xD0 => Opcode::RET(Condition::NotCarry),
        0xD1 => Opcode::POP(Target16::DE),
        0xD2 => Opcode::JP(Condition::NotCarry, Target16::Immediate),
        0xD3 => Opcode::Undefined(0xD3),
        0xD4 => Opcode::CALL(Condition::NotCarry),
        0xD5 => Opcode::PUSH(Target16::DE),
        0xD6 => Opcode::SUB(Target::Immediate),
        0xD7 => Opcode::RST(0x10),
        0xD8 => Opcode::RET(Condition::Carry),
        0xD9 => Opcode::RETI,
        0xDA => Opcode::JP(Condition::Carry, Target16::Immediate),
        0xDB => Opcode::Undefined(0xDB),
        0xDC => Opcode::CALL(Condition::Carry),
        0xDD => Opcode::Undefined(0xDD),
        0xDE => Opcode::SBC(Target::Immediate),
        0xDF => Opcode::RST(0x18),
        0xE0 => Opcode::LDH(Target::ZeroImmediate, Target::A),
        0xE1 => Opcode::POP(Target16::HL),
        0xE2 => Opcode::LD(Target::MC, Target::A),
        0xE3 => Opcode::Undefined(0xE3),
        0xE4 => Opcode::Undefined(0xE4),
        0xE5 => Opcode::PUSH(Target16::HL),
        0xE6 => Opcode::AND(Target::Immediate),
        0xE7 => Opcode::RST(0x20),
        0xE8 => Opcode::ADDSP,
        0xE9 => Opcode::JP(Condition::Always, Target16::HL),
        0xEA => Opcode::LD(Target::MImmediate, Target::A),
        0xEB => Opcode::Undefined(0xEB),
        0xEC => Opcode::Undefined(0xEC),
        0xED => Opcode::Undefined(0xED),
        0xEE => Opcode::XOR(Target::Immediate),
        0xEF => Opcode::RST(0x28),
        0xF0 => Opcode::LDH(Target::A, Target::ZeroImmediate),
        0xF1 => Opcode::POP(Target16::AF),
        0xF2 => Opcode::LD(Target::A, Target::MC),
        0xF3 => Opcode::DI,
        0xF4 => Opcode::Undefined(0xF4),
        0xF5 => Opcode::PUSH(Target16::AF),
        0xF6 => Opcode::OR(Target::Immediate),
        0xF7 => Opcode::RST(0x30),
        0xF8 => Opcode::LDHLSP,
        0xF9 => Opcode::LD16(Target16::SP, Target16::HL),
        0xFA => Opcode::LD(Target::A, Target::MImmediate),
        0xFB => Opcode::EI,
        0xFC => Opcode::Undefined(0xFC),
        0xFD => Opcode::Undefined(0xFD),
        0xFE => Opcode::CP(Target::Immediate),
        0xFF => Opcode::RST(0x38),
    }
}

impl Opcode {
    /// Decode one opcode byte by the base table.
    pub fn from_byte(byte: u8) -> (op: Opcode)
        ensures
            op == spec_decode(byte),
            opcode_wf(op),
    {
        match byte {
        0x00 => Opcode::NOP,
        0x01 => Opcode::LD16(Target16::BC, Target16::Immediate),
        0x02 => Opcode::LD(Target::MBC, Target::A),
        0x03 => Opcode::INC16(Target16::BC),
        0x04 => Opcode::INC(Target::B),
        0x05 => Opcode::DEC(Target::B),
        0x06 => Opcode::LD(Target::B, Target::Immediate),
        0x07 => Opcode::RLCA,
        0x08 => Opcode::LD16(Target16::MImmediate, Target16::SP),
        0x09 => Opcode::ADD16(Target16::BC),
        0x0A => Opcode::LD(Target::A, Target::MBC),
        0x0B => Opcode::DEC16(Target16::BC),
        0x0C => Opcode::INC(Target::C),
        0x0D => Opcode::DEC(Target::C),
        0x0E => Opcode::LD(Target::C, Target::Immediate),
        0x0F => Opcode::RRCA,
        0x10 => Opcode::STOP,
        0x11 => Opcode::LD16(Target16::DE, Target16::Immediate),
        0x12 => Opcode::LD(Target::MDE, Target::A),
        0x13 => Opcode::INC16(Target16::DE),
        0x14 => Opcode::INC(Target::D),
        0x15 => Opcode::DEC(Target::D),
        0x16 => Opcode::LD(Target::D, Target::Immediate),
        0x17 => Opcode::RLA,
        0x18 => Opcode::JR(Condition::Always),
        0x19 => Opcode::ADD16(Target16::DE),
        0x1A => Opcode::LD(Target::A, Target::MDE),
        0x1B => Opcode::DEC16(Target16::DE),
        0x1C => Opcode::INC(Target::E),
        0x1D => Opcode::DEC(Target::E),
        0x1E => Opcode::LD(Target::E, Target::Immediate),
        0x1F => Opcode::RRA,
        0x20 => Opcode::JR(Condition::NotZero),
        0x21 => Opcode::LD16(Target16::HL, Target16::Immediate),
        0x22 => Opcode::LDI(Target::MHL, Target::A),
        0x23 => Opcode::INC16(Target16::HL),
        0x24 => Opcode::INC(Target::H),
        0x25 => Opcode::DEC(Target::H),
        0x26 => Opcode::LD(Target::H, Target::Immediate),
        0x27 => Opcode::DAA,
        0x28 => Opcode::JR(Condition::Zero),
        0x29 => Opcode::ADD16(Target16::HL),
        0x2A => Opcode::LDI(Target::A, Target::MHL),
        0x2B => Opcode::DEC16(Target16::HL),
        0x2C => Opcode::INC(Target::L),
        0x2D => Opcode::DEC(Target::L),
        0x2E => Opcode::LD(Target::L, Target::Immediate),
        0x2F => Opcode::CPL,
        0x30 => Opcode::JR(Condition::NotCarry),
        0x31 => Opcode::LD16(Target16::SP, Target16::Immediate),
        0x32 => Opcode::LDD(Target::MHL, Target::A),
        0x33 => Opcode::INC16(Target16::SP),
        0x34 => Opcode::INC(Target::MHL),
        0x35 => Opcode::DEC(Target::MHL),
        0x36 => Opcode::LD(Target::MHL, Target::Immediate),
        0x37 => Opcode::SCF,
        0x38 => Opcode::JR(Condition::Carry),
        0x39 => Opcode::ADD16(Target16::SP),
        0x3A => Opcode::LDD(Target::A, Target::MHL),
        0x3B => Opcode::DEC16(Target16::SP),
        0x3C => Opcode::INC(Target::A),
        0x3D => Opcode::DEC(Target::A),
        0x3E => Opcode::LD(Target::A, Target::Immediate),
        0x3F => Opcode::CCF,
        0x40 => Opcode::LD(Target::B, Target::B),
        0x41 => Opcode::LD(Target::B, Target::C),
        0x42 => Opcode::LD(Target::B, Target::D),
        0x43 => Opcode::LD(Target::B, Target::E),
        0x44 => Opcode::LD(Target::B, Target::H),
        0x45 => Opcode::LD(Target::B, Target::L),
        0x46 => Opcode::LD(Target::B, Target::MHL),
        0x47 => Opcode::LD(Target::B, Target::A),
        0x48 => Opcode::LD(Target::C, Target::B),
        0x49 => Opcode::LD(Target::C, Target::C),
        0x4A => Opcode::LD(Target::C, Target::D),
        0x4B => Opcode::LD(Target::C, Target::E),
        0x4C => Opcode::LD(Target::C, Target::H),
        0x4D => Opcode::LD(Target::C, Target::L),
        0x4E => Opcode::LD(Target::C, Target::MHL),
        0x4F => Opcode::LD(Target::C, Target::A),
        0x50 => Opcode::LD(Target::D, Target::B),
        0x51 => Opcode::LD(Target::D, Target::C),
        0x52 => Opcode::LD(Target::D, Target::D),
        0x53 => Opcode::LD(Target::D, Target::E),
        0x54 => Opcode::LD(Target::D, Target::H),
        0x55 => Opcode::LD(Target::D, Target::L),
        0x56 => Opcode::LD(Target::D, Target::MHL),
        0x57 => Opcode::LD(Target::D, Target::A),
        0x58 => Opcode::LD(Target::E, Target::B),
        0x59 => Opcode::LD(Target::E, Target::C),
        0x5A => Opcode::LD(Target::E, Target::D),
        0x5B => Opcode::LD(Target::E, Target::E),
        0x5C => Opcode::LD(Target::E, Target::H),
        0x5D => Opcode::LD(Target::E, Target::L),
        0x5E => Opcode::LD(Target::E, Target::MHL),
        0x5F => Opcode::LD(Target::E, Target::A),
        0x60 => Opcode::LD(Target::H, Target::B),
        0x61 => Opcode::LD(Target::H, Target::C),
        0x62 => Opcode::LD(Target::H, Target::D),
        0x63 => Opcode::LD(Target::H, Target::E),
        0x64 => Opcode::LD(Target::H, Target::H),
        0x65 => Opcode::LD(Target::H, Target::L),
        0x66 => Opcode::LD(Target::H, Target::MHL),
        0x67 => Opcode::LD(Target::H, Target::A),
        0x68 => Opcode::LD(Target::L, Target::B),
        0x69 => Opcode::LD(Target::L, Target::C),
        0x6A => Opcode::LD(Target::L, Target::D),
        0x6B => Opcode::LD(Target::L, Target::E),
        0x6C => Opcode::LD(Target::L, Target::H),
        0x6D => Opcode::LD(Target::L, Target::L),
        0x6E => Opcode::LD(Target::L, Target::MHL),
        0x6F => Opcode::LD(Target::L, Target::A),
        0x70 => Opcode::LD(Target::MHL, Target::B),
        0x71 => Opcode::LD(Target::MHL, Target::C),
        0x72 => Opcode::LD(Target::MHL, Target::D),
        0x73 => Opcode::LD(Target::MHL, Target::E),
        0x74 => Opcode::LD(Target::MHL, Target::H),
        0x75 => Opcode::LD(Target::MHL, Target::L),
        0x76 => Opcode::HALT,
        0x77 => Opcode::LD(Target::MHL, Target::A),
        0x78 => Opcode::LD(Target::A, Target::B),
        0x79 => Opcode::LD(Target::A, Target::C),
        0x7A => Opcode::LD(Target::A, Target::D),
        0x7B => Opcode::LD(Target::A, Target::E),
        0x7C => Opcode::LD(Target::A, Target::H),
        0x7D => Opcode::LD(Target::A, Target::L),
        0x7E => Opcode::LD(Target::A, Target::MHL),
        0x7F => Opcode::LD(Target::A, Target::A),
        0x80 => Opcode::ADD(Target::B),
        0x81 => Opcode::ADD(Target::C),
        0x82 => Opcode::ADD(Target::D),
        0x83 => Opcode::ADD(Target::E),
        0x84 => Opcode::ADD(Target::H),
        0x85 => Opcode::ADD(Target::L),
        0x86 => Opcode::ADD(Target::MHL),
        0x87 => Opcode::ADD(Target::A),
        0x88 => Opcode::ADC(Target::B),
        0x89 => Opcode::ADC(Target::C),
        0x8A => Opcode::ADC(Target::D),
        0x8B => Opcode::ADC(Target::E),
        0x8C => Opcode::ADC(Target::H),
        0x8D => Opcode::ADC(Target::L),
        0x8E => Opcode::ADC(Target::MHL),
        0x8F => Opcode::ADC(Target::A),
        0x90 => Opcode::SUB(Target::B),
        0x91 => Opcode::SUB(Target::C),
        0x92 => Opcode::SUB(Target::D),
        0x93 => Opcode::SUB(Target::E),
        0x94 => Opcode::SUB(Target::H),
        0x95 => Opcode::SUB(Target::L),
        0x96 => Opcode::SUB(Target::MHL),
        0x97 => Opcode::SUB(Target::A),
        0x98 => Opcode::SBC(Target::B),
        0x99 => Opcode::SBC(Target::C),
        0x9A => Opcode::SBC(Target::D),
        0x9B => Opcode::SBC(Target::E),
        0x9C => Opcode::SBC(Target::H),
        0x9D => Opcode::SBC(Target::L),
        0x9E => Opcode::SBC(Target::MHL),
        0x9F => Opcode::SBC(Target::A),
        0xA0 => Opcode::AND(Target::B),
        0xA1 => Opcode::AND(Target::C),
        0xA2 => Opcode::AND(Target::D),
        0xA3 => Opcode::AND(Target::E),
        0xA4 => Opcode::AND(Target::H),
        0xA5 => Opcode::AND(Target::L),
        0xA6 => Opcode::AND(Target::MHL),
        0xA7 => Opcode::AND(Target::A),
        0xA8 => Opcode::XOR(Target::B),
        0xA9 => Opcode::XOR(Target::C),
        0xAA => Opcode::XOR(Target::D),
        0xAB => Opcode::XOR(Target::E),
        0xAC => Opcode::XOR(Target::H),
        0xAD => Opcode::XOR(Target::L),
        0xAE => Opcode::XOR(Target::MHL),
        0xAF => Opcode::XOR(Target::A),
        0xB0 => Opcode::OR(Target::B),
        0xB1 => Opcode::OR(Target::C),
        0xB2 => Opcode::OR(Target::D),
        0xB3 => Opcode::OR(Target::E),
        0xB4 => Opcode::OR(Target::H),
        0xB5 => Opcode::OR(Target::L),
        0xB6 => Opcode::OR(Target::MHL),
        0xB7 => Opcode::OR(Target::A),
        0xB8 => Opcode::CP(Target::B),
        0xB9 => Opcode::CP(Target::C),
        0xBA => Opcode::CP(Target::D),
        0xBB => Opcode::CP(Target::E),
        0xBC => Opcode::CP(Target::H),
        0xBD => Opcode::CP(Target::L),
        0xBE => Opcode::CP(Target::MHL),
        0xBF => Opcode::CP(Target::A),
        0xC0 => Opcode::RET(Condition::NotZero),
        0xC1 => Opcode::POP(Target16::BC),
        0xC2 => Opcode::JP(Condition::NotZero, Target16::Immediate),
        0xC3 => Opcode::JP(Condition::Always, Target16::Immediate),
        0xC4 => Opcode::CALL(Condition::NotZero),
        0xC5 => Opcode::PUSH(Target16::BC),
        0xC6 => Opcode::ADD(Target::Immediate),
        0xC7 => Opcode::RST(0x00),
        0xC8 => Opcode::RET(Condition::Zero),
        0xC9 => Opcode::RET(Condition::Always),
        0xCA => Opcode::JP(Condition::Zero, Target16::Immediate),
        0xCB => Opcode::PrefixCB,
        0xCC => Opcode::CALL(Condition::Zero),
        0xCD => Opcode::CALL(Condition::Always),
        0xCE => Opcode::ADC(Target::Immediate),
        0xCF => Opcode::RST(0x08),
        0xD0 => Opcode::RET(Condition::NotCarry),
        0xD1 => Opcode::POP(Target16::DE),
        0xD2 => Opcode::JP(Condition::NotCarry, Target16::Immediate),
        0xD3 => Opcode::Undefined(0xD3),
        0xD4 => Opcode::CALL(Condition::NotCarry),
        0xD5 => Opcode::PUSH(Target16::DE),
        0xD6 => Opcode::SUB(Target::Immediate),
        0xD7 => Opcode::RST(0x10),
        0xD8 => Opcode::RET(Condition::Carry),
        0xD9 => Opcode::RETI,
        0xDA => Opcode::JP(Condition::Carry, Target16::Immediate),
        0xDB => Opcode::Undefined(0xDB),
        0xDC => Opcode::CALL(Condition::Carry),
        0xDD => Opcode::Undefined(0xDD),
        0xDE => Opcode::SBC(Target::Immediate),
        0xDF => Opcode::RST(0x18),
        0xE0 => Opcode::LDH(Target::ZeroImmediate, Target::A),
        0xE1 => Opcode::POP(Target16::HL),
        0xE2 => Opcode::LD(Target::MC, Target::A),
        0xE3 => Opcode::Undefined(0xE3),
        0xE4 => Opcode::Undefined(0xE4),
        0xE5 => Opcode::PUSH(Target16::HL),
        0xE6 => Opcode::AND(Target::Immediate),
        0xE7 => Opcode::RST(0x20),
        0xE8 => Opcode::ADDSP,
        0xE9 => Opcode::JP(Condition::Always, Target16::HL),
        0xEA => Opcode::LD(Target::MImmediate, Target::A),
        0xEB => Opcode::Undefined(0xEB),
        0xEC => Opcode::Undefined(0xEC),
        0xED => Opcode::Undefined(0xED),
        0xEE => Opcode::XOR(Target::Immediate),
        0xEF => Opcode::RST(0x28),
        0xF0 => Opcode::LDH(Target::A, Target::ZeroImmediate),
        0xF1 => Opcode::POP(Target16::AF),
        0xF2 => Opcode::LD(Target::A, Target::MC),
        0xF3 => Opcode::DI,
        0xF4 => Opcode::Undefined(0xF4),
        0xF5 => Opcode::PUSH(Target16::AF),
        0xF6 => Opcode::OR(Target::Immediate),
        0xF7 => Opcode::RST(0x30),
        0xF8 => Opcode::LDHLSP,
        0xF9 => Opcode::LD16(Target16::SP, Target16::HL),
        0xFA => Opcode::LD(Target::A, Target::MImmediate),
        0xFB => Opcode::EI,
        0xFC => Opcode::Undefined(0xFC),
        0xFD => Opcode::Undefined(0xFD),
        0xFE => Opcode::CP(Target::Immediate),
        0xFF => Opcode::RST(0x38),
        }
    }
}

/// The meaning of one decoded instruction: the machine after it retires,
/// and its documented cycle cost — or the fault it surfaces, with the
/// machine unchanged.
#[verifier::opaque]
pub open spec fn spec_execute(s: CpuState, op: Opcode) -> (CpuState, Result<u8, CpuError>) {
    match op {
        Opcode::NOP => (s, Ok(4u8)),
        Opcode::STOP => (
            s,
            if s.stop_as_noop {
                Ok(4u8)
            } else {
                Err(CpuError::Stop { pc: wsub16(s.pc, 1) })
            },
        ),
        Opcode::HALT => (CpuState { halted: true, ..s }, Ok(4u8)),
        Opcode::DI => (interrupt::spec_enable_interrupt(s, false), Ok(4u8)),
        Opcode::EI => (interrupt::spec_enable_interrupt(s, true), Ok(4u8)),
        Opcode::LD(t, f) => (ld::spec_ld(s, t, f), Ok(ld::ld_cycles(t, f))),
        Opcode::LD16(t, f) => (ld::spec_ld16(s, t, f), Ok(ld::ld16_cycles(t, f))),
        Opcode::LDD(t, f) => (ld::spec_ldd(s, t, f), Ok(ld::ld_cycles(t, f))),
        Opcode::LDI(t, f) => (ld::spec_ldi(s, t, f), Ok(ld::ld_cycles(t, f))),
        Opcode::LDH(t, f) => (ld::spec_ld(s, t, f), Ok(ld::ld_cycles(t, f))),
        Opcode::ADD(t) => (add::spec_add(s, t), Ok(arith_cycles(t))),
        Opcode::ADC(t) => (add::spec_adc(s, t), Ok(arith_cycles(t))),
        Opcode::SUB(t) => (add::spec_sub(s, t), Ok(arith_cycles(t))),
        Opcode::SBC(t) => (add::spec_sbc(s, t), Ok(arith_cycles(t))),
        Opcode::ADD16(t) => (add::spec_add16(s, t), Ok(8u8)),
        Opcode::ADDSP => (add::spec_ld_add(s, Target16::SP), Ok(16u8)),
        Opcode::LDHLSP => (add::spec_ld_add(s, Target16::HL), Ok(12u8)),
        Opcode::AND(t) => (logic::spec_and(s, t), Ok(arith_cycles(t))),
        Opcode::OR(t) => (logic::spec_or(s, t), Ok(arith_cycles(t))),
        Opcode::XOR(t) => (logic::spec_xor(s, t), Ok(arith_cycles(t))),
        Opcode::CP(t) => (cp::spec_cp(s, t), Ok(arith_cycles(t))),
        Opcode::INC(t) => (
            inc::spec_inc(s, t),
            Ok(
                if target_is_register(t) {
                    4u8
                } else {
                    12u8
                },
            ),
        ),
        Opcode::DEC(t) => (
            inc::spec_dec(s, t),
            Ok(
                if target_is_register(t) {
                    4u8
                } else {
                    12u8
                },
            ),
        ),
        Opcode::INC16(t) => (inc::spec_inc16(s, t), Ok(8u8)),
        Opcode::DEC16(t) => (inc::spec_dec16(s, t), Ok(8u8)),
        Opcode::DAA => (add::spec_daa(s), Ok(4u8)),
        Opcode::CPL => (logic::spec_cpl(s), Ok(4u8)),
        Opcode::SCF => (logic::spec_scf(s), Ok(4u8)),
        Opcode::CCF => (logic::spec_ccf(s), Ok(4u8)),
        Opcode::RLCA => (bits::spec_rlc(s, Target::A, false), Ok(4u8)),
        Opcode::RLA => (bits::spec_rl(s, Target::A, false), Ok(4u8)),
        Opcode::RRCA => (bits::spec_rrc(s, Target::A, false), Ok(4u8)),
        Opcode::RRA => (bits::spec_rra(s), Ok(4u8)),
        Opcode::PUSH(t) => (stack::spec_push(s, t), Ok(16u8)),
        Opcode::POP(t) => (stack::spec_pop(s, t), Ok(12u8)),
        Opcode::JP(c, t) => (jump::spec_jp(s, c, t), Ok(jump::jp_cycles(s, c, t))),
        Opcode::JR(c) => (
            jump::spec_jr(s, c),
            Ok(
                if condition_holds(s, c) {
                    12u8
                } else {
                    8u8
                },
            ),
        ),
        Opcode::CALL(c) => (
            jump::spec_call(s, c),
            Ok(
                if condition_holds(s, c) {
                    24u8
                } else {
                    12u8
                },
            ),
        ),
        Opcode::RET(c) => (jump::spec_ret(s, c), Ok(jump::ret_cycles(s, c))),
        Opcode::RETI => (jump::spec_reti(s), Ok(16u8)),
        Opcode::RST(address) => (jump::spec_rst(s, address), Ok(16u8)),
        Opcode::PrefixCB => (bits::spec_prefix_cb(s), Ok(bits::spec_prefix_cb_cycles(s))),
        Opcode::Undefined(byte) => (
            s,
            Err(CpuError::InvalidOpcode { pc: wsub16(s.pc, 1), byte }),
        ),
    }
}

/// NOP: no effect but the four fetch cycles.
pub fn nop(cpu: &mut CPU) -> (cycles: u8)
    ensures
        *final(cpu) == *old(cpu),
        cycles == 4,
{
    4
}

/// Execute one decoded instruction: dispatch to its handler and return
/// the documented cycle cost, or the fault the slot surfaces.
/// Execute one instruction of the load and stack families.
#[verifier::rlimit(100)]
#[verifier::spinoff_prover]
fn execute_load(cpu: &mut CPU, opcode: Opcode) -> (result: Result<u8, CpuError>)
    requires
        old(cpu).wf(),
        opcode_wf(opcode),
        opcode is LD || opcode is LD16 || opcode is LDD || opcode is LDI || opcode is LDH || opcode is PUSH || opcode is POP,
    ensures
        final(cpu).wf(),
        final(cpu)@ == spec_execute(old(cpu)@, opcode).0,
        result == spec_execute(old(cpu)@, opcode).1,
{
    match opcode {
        Opcode::LD(target, from) => {
            let cycles = ld::ld(cpu, target, from);
            proof {
                reveal(spec_execute);
                assert(spec_execute(old(cpu)@, opcode) == (cpu@, Result::<u8, CpuError>::Ok(cycles)));
            }
            Ok(cycles)
        },
        Opcode::LD16(target, from) => {
            let cycles = ld::ld16(cpu, target, from);
            proof {
                reveal(spec_execute);
                assert(spec_execute(old(cpu)@, opcode) == (cpu@, Result::<u8, CpuError>::Ok(cycles)));
            }
            Ok(cycles)
        },
        Opcode::LDD(target, from) => {
            let cycles = ld::ldd(cpu, target, from);
            proof {
                reveal(spec_execute);
                assert(spec_execute(old(cpu)@, opcode) == (cpu@, Result::<u8, CpuError>::Ok(cycles)));
            }
            Ok(cycles)
        },
        Opcode::LDI(target, from) => {
            let cycles = ld::ldi(cpu, target, from);
            proof {
                reveal(spec_execute);
                assert(spec_execute(old(cpu)@, opcode) == (cpu@, Result::<u8, CpuError>::Ok(cycles)));
            }
            Ok(cycles)
        },
        Opcode::LDH(target, from) => {
            let cycles = ld::ldh(cpu, target, from);
            proof {
                reveal(spec_execute);
                assert(spec_execute(old(cpu)@, opcode) == (cpu@, Result::<u8, CpuError>::Ok(cycles)));
            }
            Ok(cycles)
        },
        Opcode::PUSH(target) => {
            let cycles = stack::push(cpu, target);
            proof {
                reveal(spec_execute);
                assert(spec_execute(old(cpu)@, opcode) == (cpu@, Result::<u8, CpuError>::Ok(cycles)));
            }
            Ok(cycles)
        },
        Opcode::POP(target) => {
            let cycles = stack::pop(cpu, target);
            proof {
                reveal(spec_execute);
                assert(spec_execute(old(cpu)@, opcode) == (cpu@, Result::<u8, CpuError>::Ok(cycles)));
            }
            Ok(cycles)
        },
        _ => {
            proof {
                assert(false);
            }
            Ok(0)
        },
    }
}

/// Execute one instruction of the arithmetic family.
#[verifier::rlimit(100)]
#[verifier::spinoff_prover]
fn execute_arith(cpu: &mut CPU, opcode: Opcode) -> (result: Result<u8, CpuError>)
    requires
        old(cpu).wf(),
        opcode_wf(opcode),
        opcode is ADD || opcode is ADC || opcode is SUB || opcode is SBC || opcode is ADD16 || opcode is ADDSP || opcode is LDHLSP || opcode is INC || opcode is DEC || opcode is INC16 || opcode is DEC16 || opcode is DAA,
    ensures
        final(cpu).wf(),
        final(cpu)@ == spec_execute(old(cpu)@, opcode).0,
        result == spec_execute(old(cpu)@, opcode).1,
{
    match opcode {
        Opcode::ADD(target) => {
            let cycles = add::add(cpu, target);
            proof {
                reveal(spec_execute);
                assert(spec_execute(old(cpu)@, opcode) == (cpu@, Result::<u8, CpuError>::Ok(cycles)));
            }
            Ok(cycles)
        },
        Opcode::ADC(target) => {
            let cycles = add::adc(cpu, target);
            proof {
                reveal(spec_execute);
                assert(spec_execute(old(cpu)@, opcode) == (cpu@, Result::<u8, CpuError>::Ok(cycles)));
            }
            Ok(cycles)
        },
        Opcode::SUB(target) => {
            let cycles = add::sub(cpu, target);
            proof {
                reveal(spec_execute);
                assert(spec_execute(old(cpu)@, opcode) == (cpu@, Result::<u8, CpuError>::Ok(cycles)));
            }
            Ok(cycles)
        },
        Opcode::SBC(target) => {
            let cycles = add::sbc(cpu, target);
            proof {
                reveal(spec_execute);
                assert(spec_execute(old(cpu)@, opcode) == (cpu@, Result::<u8, CpuError>::Ok(cycles)));
            }
            Ok(cycles)
        },
        Opcode::ADD16(target) => {
            let cycles = add::add16(cpu, target);
            proof {
                reveal(spec_execute);
                assert(spec_execute(old(cpu)@, opcode) == (cpu@, Result::<u8, CpuError>::Ok(cycles)));
            }
            Ok(cycles)
        },
        Opcode::ADDSP => {
            let cycles = add::ld_add(cpu, Target16::SP);
            proof {
                reveal(spec_execute);
                assert(spec_execute(old(cpu)@, opcode) == (cpu@, Result::<u8, CpuError>::Ok(cycles)));
            }
            Ok(cycles)
        },
        Opcode::LDHLSP => {
            let cycles = add::ld_add(cpu, Target16::HL);
            proof {
                reveal(spec_execute);
                assert(spec_execute(old(cpu)@, opcode) == (cpu@, Result::<u8, CpuError>::Ok(cycles)));
            }
            Ok(cycles)
        },
        Opcode::INC(target) => {
            let cycles = inc::inc(cpu, target);
            proof {
                reveal(spec_execute);
                assert(spec_execute(old(cpu)@, opcode) == (cpu@, Result::<u8, CpuError>::Ok(cycles)));
            }
            Ok(cycles)
        },
        Opcode::DEC(target) => {
            let cycles = inc::dec(cpu, target);
            proof {
                reveal(spec_execute);
                assert(spec_execute(old(cpu)@, opcode) == (cpu@, Result::<u8, CpuError>::Ok(cycles)));
            }
            Ok(cycles)
        },
        Opcode::INC16(target) => {
            let cycles = inc::inc16(cpu, target);
            proof {
                reveal(spec_execute);
                assert(spec_execute(old(cpu)@, opcode) == (cpu@, Result::<u8, CpuError>::Ok(cycles)));
            }
            Ok(cycles)
        },
        Opcode::DEC16(target) => {
            let cycles = inc::dec16(cpu, target);
            proof {
                reveal(spec_execute);
                assert(spec_execute(old(cpu)@, opcode) == (cpu@, Result::<u8, CpuError>::Ok(cycles)));
            }
            Ok(cycles)
        },
        Opcode::DAA => {
            let cycles = add::daa(cpu);
            proof {
                reveal(spec_execute);
                assert(spec_execute(old(cpu)@, opcode) == (cpu@, Result::<u8, CpuError>::Ok(cycles)));
            }
            Ok(cycles)
        },
        _ => {
            proof {
                assert(false);
            }
            Ok(0)
        },
    }
}

/// Execute one instruction of the logic, rotate and CB families.
#[verifier::rlimit(100)]
#[verifier::spinoff_prover]
fn execute_logic(cpu: &mut CPU, opcode: Opcode) -> (result: Result<u8, CpuError>)
    requires
        old(cpu).wf(),
        opcode_wf(opcode),
        opcode is AND || opcode is OR || opcode is XOR || opcode is CP || opcode is CPL || opcode is SCF || opcode is CCF || opcode is RLCA || opcode is RLA || opcode is RRCA || opcode is RRA || opcode is PrefixCB,
    ensures
        final(cpu).wf(),
        final(cpu)@ == spec_execute(old(cpu)@, opcode).0,
        result == spec_execute(old(cpu)@, opcode).1,
{
    match opcode {
        Opcode::AND(target) => {
            let cycles = logic::and(cpu, target);
            proof {
                reveal(spec_execute);
                assert(spec_execute(old(cpu)@, opcode) == (cpu@, Result::<u8, CpuError>::Ok(cycles)));
            }
            Ok(cycles)
        },
        Opcode::OR(target) => {
            let cycles = logic::or(cpu, target);
            proof {
                reveal(spec_execute);
                assert(spec_execute(old(cpu)@, opcode) == (cpu@, Result::<u8, CpuError>::Ok(cycles)));
            }
            Ok(cycles)
        },
        Opcode::XOR(target) => {
            let cycles = logic::xor(cpu, target);
            proof {
                reveal(spec_execute);
                assert(spec_execute(old(cpu)@, opcode) == (cpu@, Result::<u8, CpuError>::Ok(cycles)));
            }
            Ok(cycles)
        },
        Opcode::CP(target) => {
            let cycles = cp::cp(cpu, target);
            proof {
                reveal(spec_execute);
                assert(spec_execute(old(cpu)@, opcode) == (cpu@, Result::<u8, CpuError>::Ok(cycles)));
            }
            Ok(cycles)
        },
        Opcode::CPL => {
            let cycles = logic::cpl(cpu);
            proof {
                reveal(spec_execute);
                assert(spec_execute(old(cpu)@, opcode) == (cpu@, Result::<u8, CpuError>::Ok(cycles)));
            }
            Ok(cycles)
        },
        Opcode::SCF => {
            let cycles = logic::scf(cpu);
            proof {
                reveal(spec_execute);
                assert(spec_execute(old(cpu)@, opcode) == (cpu@, Result::<u8, CpuError>::Ok(cycles)));
            }
            Ok(cycles)
        },
        Opcode::CCF => {
            let cycles = logic::ccf(cpu);
            proof {
                reveal(spec_execute);
                assert(spec_execute(old(cpu)@, opcode) == (cpu@, Result::<u8, CpuError>::Ok(cycles)));
            }
            Ok(cycles)
        },
        Opcode::RLCA => {
            let _wide = bits::rlc(cpu, Target::A, false);
            proof {
                reveal(spec_execute);
                assert(spec_execute(old(cpu)@, opcode) == (cpu@, Result::<u8, CpuError>::Ok(4u8)));
            }
            Ok(4)
        },
        Opcode::RLA => {
            let _wide = bits::rl(cpu, Target::A, false);
            proof {
                reveal(spec_execute);
                assert(spec_execute(old(cpu)@, opcode) == (cpu@, Result::<u8, CpuError>::Ok(4u8)));
            }
            Ok(4)
        },
        Opcode::RRCA => {
            let _wide = bits::rrc(cpu, Target::A, false);
            proof {
                reveal(spec_execute);
                assert(spec_execute(old(cpu)@, opcode) == (cpu@, Result::<u8, CpuError>::Ok(4u8)));
            }
            Ok(4)
        },
        Opcode::RRA => {
            let cycles = bits::rra(cpu);
            proof {
                reveal(spec_execute);
                assert(spec_execute(old(cpu)@, opcode) == (cpu@, Result::<u8, CpuError>::Ok(cycles)));
            }
            Ok(cycles)
        },
        Opcode::PrefixCB => {
            let cycles = bits::prefix_cb(cpu);
            proof {
                reveal(spec_execute);
                assert(spec_execute(old(cpu)@, opcode) == (cpu@, Result::<u8, CpuError>::Ok(cycles)));
            }
            Ok(cycles)
        },
        _ => {
            proof {
                assert(false);
            }
            Ok(0)
        },
    }
}

/// Execute one control-flow, interrupt-control or special instruction.
#[verifier::rlimit(100)]
#[verifier::spinoff_prover]
fn execute_control(cpu: &mut CPU, opcode: Opcode) -> (result: Result<u8, CpuError>)
    requires
        old(cpu).wf(),
        opcode_wf(opcode),
        opcode is NOP || opcode is STOP || opcode is HALT || opcode is DI || opcode is EI || opcode is JP || opcode is JR || opcode is CALL || opcode is RET || opcode is RETI || opcode is RST || opcode is Undefined,
    ensures
        final(cpu).wf(),
        final(cpu)@ == spec_execute(old(cpu)@, opcode).0,
        result == spec_execute(old(cpu)@, opcode).1,
{
    match opcode {
        Opcode::NOP => {
            let cycles = nop(cpu);
            proof {
                reveal(spec_execute);
                assert(spec_execute(old(cpu)@, opcode) == (cpu@, Result::<u8, CpuError>::Ok(cycles)));
            }
            Ok(cycles)
        },
        Opcode::STOP => {
            let result = cpu.stop();
            proof {
                reveal(spec_execute);
                assert(spec_execute(old(cpu)@, opcode) == (cpu@, result));
            }
            result
        },
        Opcode::HALT => {
            cpu.set_halted(true);
            proof {
                reveal(spec_execute);
                assert(spec_execute(old(cpu)@, opcode) == (cpu@, Result::<u8, CpuError>::Ok(4u8)));
            }
            Ok(4)
        },
        Opcode::DI => {
            let cycles = interrupt::enable_interrupt(cpu, false);
            proof {
                reveal(spec_execute);
                assert(spec_execute(old(cpu)@, opcode) == (cpu@, Result::<u8, CpuError>::Ok(cycles)));
            }
            Ok(cycles)
        },
        Opcode::EI => {
            let cycles = interrupt::enable_interrupt(cpu, true);
            proof {
                reveal(spec_execute);
                assert(spec_execute(old(cpu)@, opcode) == (cpu@, Result::<u8, CpuError>::Ok(cycles)));
            }
            Ok(cycles)
        },
        Opcode::JP(condition, target) => {
            let cycles = jump::jp(cpu, condition, target);
            proof {
                reveal(spec_execute);
                assert(spec_execute(old(cpu)@, opcode) == (cpu@, Result::<u8, CpuError>::Ok(cycles)));
            }
            Ok(cycles)
        },
        Opcode::JR(condition) => {
            let cycles = jump::jr(cpu, condition);
            proof {
                reveal(spec_execute);
                assert(spec_execute(old(cpu)@, opcode) == (cpu@, Result::<u8, CpuError>::Ok(cycles)));
            }
            Ok(cycles)
        },
        Opcode::CALL(condition) => {
            let cycles = jump::call(cpu, condition);
            proof {
                reveal(spec_execute);
                assert(spec_execute(old(cpu)@, opcode) == (cpu@, Result::<u8, CpuError>::Ok(cycles)));
            }
            Ok(cycles)
        },
        Opcode::RET(condition) => {
            let cycles = jump::ret(cpu, condition);
            proof {
                reveal(spec_execute);
                assert(spec_execute(old(cpu)@, opcode) == (cpu@, Result::<u8, CpuError>::Ok(cycles)));
            }
            Ok(cycles)
        },
        Opcode::RETI => {
            let cycles = jump::reti(cpu);
            proof {
                reveal(spec_execute);
                assert(spec_execute(old(cpu)@, opcode) == (cpu@, Result::<u8, CpuError>::Ok(cycles)));
            }
            Ok(cycles)
        },
        Opcode::RST(address) => {
            let cycles = jump::rst(cpu, address);
            proof {
                reveal(spec_execute);
                assert(spec_execute(old(cpu)@, opcode) == (cpu@, Result::<u8, CpuError>::Ok(cycles)));
            }
            Ok(cycles)
        },
        Opcode::Undefined(byte) => {
            let result: Result<u8, CpuError> = Err(
                CpuError::InvalidOpcode { pc: cpu.pc.wrapping_sub(1), byte },
            );
            proof {
                reveal(spec_execute);
                assert(spec_execute(old(cpu)@, opcode) == (cpu@, result));
            }
            result
        },
        _ => {
            proof {
                assert(false);
            }
            Ok(0)
        },
    }
}

/// Execute one decoded instruction: dispatch to its handler and return
/// the documented cycle cost, or the fault the slot surfaces.
pub fn execute_opcode(cpu: &mut CPU, opcode: Opcode) -> (result: Result<u8, CpuError>)
    requires
        old(cpu).wf(),
        opcode_wf(opcode),
    ensures
        final(cpu).wf(),
        final(cpu)@ == spec_execute(old(cpu)@, opcode).0,
        result == spec_execute(old(cpu)@, opcode).1,
{
    match opcode {
        Opcode::LD(..)
        | Opcode::LD16(..)
        | Opcode::LDD(..)
        | Opcode::LDI(..)
        | Opcode::LDH(..)
        | Opcode::PUSH(..)
        | Opcode::POP(..) => execute_load(cpu, opcode),
        Opcode::ADD(..)
        | Opcode::ADC(..)
        | Opcode::SUB(..)
        | Opcode::SBC(..)
        | Opcode::ADD16(..)
        | Opcode::ADDSP
        | Opcode::LDHLSP
        | Opcode::INC(..)
        | Opcode::DEC(..)
        | Opcode::INC16(..)
        | Opcode::DEC16(..)
        | Opcode::DAA => execute_arith(cpu, opcode),
        Opcode::AND(..)
        | Opcode::OR(..)
        | Opcode::XOR(..)
        | Opcode::CP(..)
        | Opcode::CPL
        | Opcode::SCF
        | Opcode::CCF
        | Opcode::RLCA
        | Opcode::RLA
        | Opcode::RRCA
        | Opcode::RRA
        | Opcode::PrefixCB => execute_logic(cpu, opcode),
        Opcode::NOP
        | Opcode::STOP
        | Opcode::HALT
        | Opcode::DI
        | Opcode::EI
        | Opcode::JP(..)
        | Opcode::JR(..)
        | Opcode::CALL(..)
        | Opcode::RET(..)
        | Opcode::RETI
        | Opcode::RST(..)
        | Opcode::Undefined(..) => execute_control(cpu, opcode),
    }
}

} // verus!
