//! The I/O register page at 0xFF00-0xFF7F, and the interrupt registers.
//!
//! Most of the page belongs to collaborators this core stubs out: the PPU,
//! the APU and the joypad.  The stub accepts every write silently.  One
//! read is special: the PPU line counter at 0xFF44 can return a fixed 0x90
//! to unblock test ROMs that spin on it; that shim is a toggle, not a
//! hard-wired value.

pub mod serial;
pub mod timer;

use vstd::prelude::*;

use crate::Memory;

verus! {

/// The stubbed I/O register page.
pub struct IO {
    /// Whether reads of the PPU line counter at 0xFF44 return 0x90.
    pub ly_stub: bool,
}

/// The byte an I/O stub read yields.
pub open spec fn io_read_of(ly_stub: bool, address: u16) -> u8 {
    if address == 0xFF44 && ly_stub {
        0x90
    } else if address == 0xFF4D {
        0xFF
    } else {
        0x00
    }
}

impl Memory for IO {
    open spec fn mem_valid(&self, address: u16) -> bool {
        0xFF00 <= address < 0xFF80
    }

    open spec fn mem_read(&self, address: u16) -> u8 {
        io_read_of(self.ly_stub, address)
    }

    fn read(&self, address: u16) -> u8 {
        if address == 0xFF44 && self.ly_stub {
            0x90
        } else if address == 0xFF4D {
            0xFF
        } else {
            0x00
        }
    }

    /// The stubbed registers accept every write silently.
    fn write(&mut self, address: u16, value: u8)
        ensures
            *final(self) == *old(self),
    {
    }
}

/// The interrupt-enable register IE (mapped at 0xFFFF) and the
/// interrupt-flag register IF (mapped at 0xFF0F).  Only bits 0 to 4 are
/// defined, in the order VBlank, LCD, Timer, Serial, Joypad.
#[derive(Clone, Copy, Debug, PartialEq, Eq, Structural)]
pub struct Interrupts {
    pub enable: u8,
    pub flags: u8,
}

impl Interrupts {
    /// Both registers clear.
    pub fn new() -> (i: Interrupts)
        ensures
            i == (Interrupts { enable: 0, flags: 0 }),
    {
        Interrupts { enable: 0, flags: 0 }
    }
}

} // verus!
