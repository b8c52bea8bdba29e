//! Emulator core for the Sharp LR35902 processor and its memory bus.
//!
//! The crate models the eight-register file with its four-bit flag cell, the
//! cartridge header, the MBC1 bank switcher, the boot-ROM overlay, the address
//! decoder, the interrupt controller, a serial stub, and the fetch-decode-execute
//! step of the processor.  Every state change is specified against a mathematical
//! view of the machine, so the flag rules and the address map are proved, not
//! merely tested.

use vstd::prelude::*;

pub mod boot_rom;

pub mod bus;
pub mod cartridge;
pub mod cpu;
pub mod opcode;
pub mod io;
pub mod mbc;
pub mod registers;

verus! {

/// Addition modulo 2^16, as addresses and counters of the machine move.
pub open spec fn wadd16(a: u16, n: u16) -> u16 {
    vstd::wrapping::u16_specs::wrapping_add(a, n)
}

/// Subtraction modulo 2^16.
pub open spec fn wsub16(a: u16, n: u16) -> u16 {
    vstd::wrapping::u16_specs::wrapping_sub(a, n)
}

/// Relies on std's `String::push`: appends one character to the string.
#[verifier::external_body]
pub(crate) fn push_char(s: &mut String, c: char)
    ensures
        final(s)@ == old(s)@.push(c),
{
    s.push(c);
}

/// A byte-addressed memory region.
///
/// `read` and `write` are the two primitives; the word helpers combine two
/// bytes in little-endian order (low byte at the lower address).  Each
/// implementation decides which addresses are valid through `mem_valid` and
/// gives the meaning of a read through `mem_read`.
pub trait Memory: Sized {
    spec fn mem_valid(&self, address: u16) -> bool;

    spec fn mem_read(&self, address: u16) -> u8;

    fn read(&self, address: u16) -> (value: u8)
        requires
            self.mem_valid(address),
        ensures
            value == self.mem_read(address),
    ;

    fn write(&mut self, address: u16, value: u8)
        requires
            old(self).mem_valid(address),
        ensures
            forall|a: u16| final(self).mem_valid(a) == old(self).mem_valid(a),
    ;

    fn read_word(&self, address: u16) -> (value: u16)
        requires
            address < 0xFFFF,
            self.mem_valid(address),
            self.mem_valid((address + 1) as u16),
        ensures
            value == self.mem_read(address) + 0x100 * self.mem_read((address + 1) as u16),
    {
        let low = self.read(address) as u16;
        let high = self.read(address + 1) as u16;
        high * 0x100 + low
    }

    fn write_word(&mut self, address: u16, value: u16)
        requires
            address < 0xFFFF,
            old(self).mem_valid(address),
            old(self).mem_valid((address + 1) as u16),
    {
        let low = (value % 0x100) as u8;
        let high = (value / 0x100) as u8;
        self.write(address, low);
        self.write(address + 1, high);
    }
}

/// A flat byte array: the work RAM, video RAM and high RAM of the bus.
pub struct RAM {
    data: Vec<u8>,
}

impl View for RAM {
    type V = Seq<u8>;

    closed spec fn view(&self) -> Seq<u8> {
        self.data@
    }
}

impl RAM {
    /// A zero-filled region of `size` bytes.
    pub fn new(size: usize) -> (ram: RAM)
        ensures
            ram@.len() == size,
            forall|i: int| 0 <= i < size ==> ram@[i] == 0,
    {
        RAM { data: vec![0u8; size] }
    }
}

impl Memory for RAM {
    open spec fn mem_valid(&self, address: u16) -> bool {
        (address as int) < self@.len()
    }

    open spec fn mem_read(&self, address: u16) -> u8 {
        self@[address as int]
    }

    fn read(&self, address: u16) -> u8 {
        self.data[address as usize]
    }

    fn write(&mut self, address: u16, value: u8)
        ensures
            final(self)@ == old(self)@.update(address as int, value),
    {
        self.data[address as usize] = value;
    }
}

} // verus!
