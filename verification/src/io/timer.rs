//! The timer stub at 0xFF04-0xFF07.  The core does not model DIV, TIMA,
//! TMA or TAC: reads yield zero and writes are accepted silently.

use vstd::prelude::*;

use crate::Memory;

verus! {

/// The stubbed timer registers.
pub struct Timer {}

impl Memory for Timer {
    open spec fn mem_valid(&self, address: u16) -> bool {
        0xFF04 <= address < 0xFF08
    }

    open spec fn mem_read(&self, address: u16) -> u8 {
        0x00
    }

    fn read(&self, address: u16) -> u8 {
        0x00
    }

    /// The stubbed registers accept every write silently.
    fn write(&mut self, address: u16, value: u8)
        ensures
            *final(self) == *old(self),
    {
    }
}

} // verus!
