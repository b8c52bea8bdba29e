//! The register file: eight 8-bit cells and the four-bit flag cell.
//!
//! The pair views AF, BC, DE and HL combine two cells as big-endian 16-bit
//! words.  The flag cell occupies the upper nibble of the F byte; the lower
//! nibble reads back as zero on every path, which `flags_value` makes exact.

use vstd::prelude::*;

verus! {

/// The four condition flags: Zero, Subtract, Half-carry and Carry.
///
/// Stored as four booleans, so the invariant that the low nibble of the F
/// byte is zero holds by construction.
#[derive(Clone, Copy, Debug, PartialEq, Eq, Structural)]
pub struct Flags {
    pub zero: bool,
    pub subtract: bool,
    pub half_carry: bool,
    pub carry: bool,
}

/// The F byte that a flag cell reads back as: Z in bit 7, N in bit 6,
/// H in bit 5, C in bit 4, and a zero low nibble.
pub open spec fn flags_value(f: Flags) -> u8 {
    (if f.zero { 0x80u8 } else { 0u8 }) | (if f.subtract { 0x40u8 } else { 0u8 }) | (if f.half_carry {
        0x20u8
    } else {
        0u8
    }) | (if f.carry { 0x10u8 } else { 0u8 })
}

/// The flag cell denoted by the upper nibble of a byte.
pub open spec fn flags_of_byte(b: u8) -> Flags {
    Flags {
        zero: b & 0x80 != 0,
        subtract: b & 0x40 != 0,
        half_carry: b & 0x20 != 0,
        carry: b & 0x10 != 0,
    }
}

impl Flags {
    /// All four flags clear.
    pub fn new() -> (f: Flags)
        ensures
            f == (Flags { zero: false, subtract: false, half_carry: false, carry: false }),
    {
        Flags { zero: false, subtract: false, half_carry: false, carry: false }
    }

    pub fn zero(&self) -> (b: bool)
        ensures
            b == self.zero,
    {
        self.zero
    }

    pub fn subtract(&self) -> (b: bool)
        ensures
            b == self.subtract,
    {
        self.subtract
    }

    pub fn half_carry(&self) -> (b: bool)
        ensures
            b == self.half_carry,
    {
        self.half_carry
    }

    pub fn carry(&self) -> (b: bool)
        ensures
            b == self.carry,
    {
        self.carry
    }

    pub fn set_zero(&mut self, value: bool)
        ensures
            *final(self) == (Flags { zero: value, ..*old(self) }),
    {
        self.zero = value;
    }

    pub fn set_subtract(&mut self, value: bool)
        ensures
            *final(self) == (Flags { subtract: value, ..*old(self) }),
    {
        self.subtract = value;
    }

    pub fn set_half_carry(&mut self, value: bool)
        ensures
            *final(self) == (Flags { half_carry: value, ..*old(self) }),
    {
        self.half_carry = value;
    }

    pub fn set_carry(&mut self, value: bool)
        ensures
            *final(self) == (Flags { carry: value, ..*old(self) }),
    {
        self.carry = value;
    }

    /// The F byte for this flag cell.  Its low nibble is always zero.
    pub fn to_byte(&self) -> (b: u8)
        ensures
            b == flags_value(*self),
            b & 0x0F == 0,
    {
        let b: u8 = (if self.zero { 0x80u8 } else { 0u8 }) | (if self.subtract {
            0x40u8
        } else {
            0u8
        }) | (if self.half_carry { 0x20u8 } else { 0u8 }) | (if self.carry { 0x10u8 } else { 0u8 });
        proof {
            let z = self.zero;
            let n = self.subtract;
            let h = self.half_carry;
            let c = self.carry;
            assert(((if z { 0x80u8 } else { 0u8 }) | (if n { 0x40u8 } else { 0u8 }) | (if h {
                0x20u8
            } else {
                0u8
            }) | (if c { 0x10u8 } else { 0u8 })) & 0x0F == 0) by (bit_vector);
        }
        b
    }

    /// The flag cell denoted by a byte; the low nibble is discarded.
    pub fn from_byte(b: u8) -> (f: Flags)
        ensures
            f == flags_of_byte(b),
    {
        Flags {
            zero: b & 0x80 != 0,
            subtract: b & 0x40 != 0,
            half_carry: b & 0x20 != 0,
            carry: b & 0x10 != 0,
        }
    }
}

/// The eight primary registers.  Pairs are read big-endian: the first
/// register of a pair supplies the high byte.
#[derive(Clone, Copy, Debug, PartialEq, Eq, Structural)]
pub struct Registers {
    pub a: u8,
    pub b: u8,
    pub c: u8,
    pub d: u8,
    pub e: u8,
    pub f: Flags,
    pub h: u8,
    pub l: u8,
}

/// The 16-bit word formed by a high and a low byte.
pub open spec fn word(high: u8, low: u8) -> u16 {
    (high * 0x100 + low) as u16
}

/// The register file after power-on, as the boot ROM leaves it.
pub open spec fn initial_registers() -> Registers {
    Registers {
        a: 0x01,
        b: 0x00,
        c: 0x13,
        d: 0x00,
        e: 0xD8,
        f: Flags { zero: true, subtract: false, half_carry: true, carry: true },
        h: 0x01,
        l: 0x4D,
    }
}

impl Registers {
    pub open spec fn af_spec(self) -> u16 {
        word(self.a, flags_value(self.f))
    }

    pub open spec fn bc_spec(self) -> u16 {
        word(self.b, self.c)
    }

    pub open spec fn de_spec(self) -> u16 {
        word(self.d, self.e)
    }

    pub open spec fn hl_spec(self) -> u16 {
        word(self.h, self.l)
    }

    /// The register file after power-on, as the boot ROM leaves it.
    pub fn new() -> (regs: Registers)
        ensures
            regs == initial_registers(),
    {
        Registers {
            a: 0x01,
            b: 0x00,
            c: 0x13,
            d: 0x00,
            e: 0xD8,
            f: Flags { zero: true, subtract: false, half_carry: true, carry: true },
            h: 0x01,
            l: 0x4D,
        }
    }

    pub fn af(&self) -> (value: u16)
        ensures
            value == self.af_spec(),
            value & 0x000F == 0,
    {
        let f = self.f.to_byte();
        let value = (self.a as u16) * 0x100 + (f as u16);
        proof {
            let a = self.a;
            assert((((a as u16) * 0x100 + (f as u16)) as u16) & 0x000F == 0) by (bit_vector)
                requires
                    f & 0x0F == 0,
            ;
        }
        value
    }

    pub fn bc(&self) -> (value: u16)
        ensures
            value == self.bc_spec(),
    {
        (self.b as u16) * 0x100 + (self.c as u16)
    }

    pub fn de(&self) -> (value: u16)
        ensures
            value == self.de_spec(),
    {
        (self.d as u16) * 0x100 + (self.e as u16)
    }

    pub fn hl(&self) -> (value: u16)
        ensures
            value == self.hl_spec(),
    {
        (self.h as u16) * 0x100 + (self.l as u16)
    }

    /// Store a word into AF.  The low nibble of the value is discarded, so
    /// the flag-cell invariant is kept on every path.
    pub fn set_af(&mut self, value: u16)
        ensures
            *final(self) == (Registers {
                a: (value / 0x100) as u8,
                f: flags_of_byte(value as u8),
                ..*old(self)
            }),
    {
        self.a = (value / 0x100) as u8;
        self.f = Flags::from_byte(value as u8);
    }

    pub fn set_bc(&mut self, value: u16)
        ensures
            *final(self) == (Registers {
                b: (value / 0x100) as u8,
                c: (value % 0x100) as u8,
                ..*old(self)
            }),
    {
        self.b = (value / 0x100) as u8;
        self.c = (value % 0x100) as u8;
    }

    pub fn set_de(&mut self, value: u16)
        ensures
            *final(self) == (Registers {
                d: (value / 0x100) as u8,
                e: (value % 0x100) as u8,
                ..*old(self)
            }),
    {
        self.d = (value / 0x100) as u8;
        self.e = (value % 0x100) as u8;
    }

    pub fn set_hl(&mut self, value: u16)
        ensures
            *final(self) == (Registers {
                h: (value / 0x100) as u8,
                l: (value % 0x100) as u8,
                ..*old(self)
            }),
    {
        self.h = (value / 0x100) as u8;
        self.l = (value % 0x100) as u8;
    }
}

/// The F byte read back from any flag cell has a zero low nibble: the
/// four flags live in the upper nibble and nothing else is stored.
pub proof fn lemma_flag_byte_low_nibble(f: Flags)
    ensures
        flags_value(f) & 0x0F == 0,
{
    let z = f.zero;
    let n = f.subtract;
    let h = f.half_carry;
    let c = f.carry;
    assert(((if z { 0x80u8 } else { 0u8 }) | (if n { 0x40u8 } else { 0u8 }) | (if h {
        0x20u8
    } else {
        0u8
    }) | (if c { 0x10u8 } else { 0u8 })) & 0x0F == 0) by (bit_vector);
}

/// Storing a word into BC, DE or HL and reading the pair back yields the
/// word unchanged: the pair views lose nothing.
pub proof fn lemma_pair_round_trip(regs: Registers, value: u16)
    ensures
        ({
            let r = Registers { b: (value / 0x100) as u8, c: (value % 0x100) as u8, ..regs };
            r.bc_spec() == value
        }),
        ({
            let r = Registers { d: (value / 0x100) as u8, e: (value % 0x100) as u8, ..regs };
            r.de_spec() == value
        }),
        ({
            let r = Registers { h: (value / 0x100) as u8, l: (value % 0x100) as u8, ..regs };
            r.hl_spec() == value
        }),
{
    assert(value / 0x100 < 0x100);
    assert((value / 0x100) * 0x100 + (value % 0x100) == value) by (nonlinear_arith);
}

/// Storing a word into AF and reading the pair back yields the word with its
/// low nibble cleared: F never exposes its low four bits.
pub proof fn lemma_af_round_trip(regs: Registers, value: u16)
    ensures
        ({
            let r = Registers {
                a: (value / 0x100) as u8,
                f: flags_of_byte(value as u8),
                ..regs
            };
            r.af_spec() == value & 0xFFF0
        }),
{
    let low = value as u8;
    assert(((if low & 0x80 != 0 { 0x80u8 } else { 0u8 }) | (if low & 0x40 != 0 {
        0x40u8
    } else {
        0u8
    }) | (if low & 0x20 != 0 { 0x20u8 } else { 0u8 }) | (if low & 0x10 != 0 {
        0x10u8
    } else {
        0u8
    })) == low & 0xF0) by (bit_vector);
    assert((((value / 0x100) as u8) as u16) * 0x100 + (((value as u8) & 0xF0) as u16) == value
        & 0xFFF0) by (bit_vector);
}

} // verus!
