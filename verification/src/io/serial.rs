//! The serial-port stub: the data register SB at 0xFF01, the control
//! register SC at 0xFF02, and an observable byte sink.  Writing the
//! transfer-trigger pattern 0x81 to SC captures SB into the sink; this is
//! the minimum needed to read a test ROM's output.

use vstd::prelude::*;

use crate::Memory;

verus! {

/// The serial stub with its captured output.
pub struct Serial {
    pub data: u8,
    pub control: u8,
    output: Vec<u8>,
}

/// The mathematical state of the serial stub.
#[verifier::ext_equal]
pub struct SerialView {
    pub data: u8,
    pub control: u8,
    pub output: Seq<u8>,
}

/// The serial state after a write: SB stores the byte; SC stores the byte
/// and, on the trigger pattern 0x81, captures SB into the sink.
pub open spec fn serial_write_of(s: SerialView, address: u16, value: u8) -> SerialView {
    if address == 0xFF01 {
        SerialView { data: value, ..s }
    } else if address == 0xFF02 {
        SerialView {
            control: value,
            output: if value == 0x81 {
                s.output.push(s.data)
            } else {
                s.output
            },
            ..s
        }
    } else {
        s
    }
}

impl View for Serial {
    type V = SerialView;

    closed spec fn view(&self) -> SerialView {
        SerialView { data: self.data, control: self.control, output: self.output@ }
    }
}

impl Serial {
    /// Both registers clear, the sink empty.
    pub fn new() -> (serial: Serial)
        ensures
            serial@ == (SerialView { data: 0, control: 0, output: Seq::<u8>::empty() }),
    {
        let serial = Serial { data: 0, control: 0, output: Vec::new() };
        proof {
            assert(serial@ =~= (SerialView { data: 0, control: 0, output: Seq::<u8>::empty() }));
        }
        serial
    }

    /// The bytes captured so far, oldest first.
    pub fn output(&self) -> (bytes: &Vec<u8>)
        ensures
            bytes@ == self@.output,
    {
        &self.output
    }
}

impl Memory for Serial {
    open spec fn mem_valid(&self, address: u16) -> bool {
        address == 0xFF01 || address == 0xFF02
    }

    open spec fn mem_read(&self, address: u16) -> u8 {
        if address == 0xFF01 {
            self@.data
        } else {
            self@.control
        }
    }

    fn read(&self, address: u16) -> u8 {
        if address == 0xFF01 {
            self.data
        } else {
            self.control
        }
    }

    fn write(&mut self, address: u16, value: u8)
        ensures
            final(self)@ == serial_write_of(old(self)@, address, value),
    {
        if address == 0xFF01 {
            self.data = value;
        } else if address == 0xFF02 {
            if value == 0x81 {
                self.output.push(self.data);
            }
            self.control = value;
        }
        proof {
            assert(self@ =~= serial_write_of(old(self)@, address, value));
        }
    }
}

} // verus!
