//! The boot-ROM overlay: 256 bytes mapped over the start of the address
//! space while active, read-only, and destroyed by the first write to the
//! boot-disable register.

use vstd::prelude::*;

use crate::Memory;

verus! {

/// A 256-byte boot ROM image.
pub struct BootROM {
    data: Vec<u8>,
}

impl View for BootROM {
    type V = Seq<u8>;

    closed spec fn view(&self) -> Seq<u8> {
        self.data@
    }
}

impl BootROM {
    /// Wrap a 256-byte image.
    pub fn new(data: Vec<u8>) -> (rom: BootROM)
        requires
            data@.len() == 0x100,
        ensures
            rom@ == data@,
    {
        BootROM { data }
    }
}

impl Memory for BootROM {
    open spec fn mem_valid(&self, address: u16) -> bool {
        (address as int) < self@.len()
    }

    open spec fn mem_read(&self, address: u16) -> u8 {
        self@[address as int]
    }

    fn read(&self, address: u16) -> u8 {
        self.data[address as usize]
    }

    /// This ROM is read only: writes change nothing.
    fn write(&mut self, address: u16, value: u8)
        ensures
            final(self)@ == old(self)@,
    {
    }
}

} // verus!
