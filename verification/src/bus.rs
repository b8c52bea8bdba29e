//! The address decoder.
//!
//! Every read and write of the processor goes through the bus, which
//! classifies the 16-bit address and forwards to the right subordinate:
//! boot-ROM overlay, MBC1, video RAM, work RAM (echoed at 0xE000-0xFDFF),
//! OAM stub, prohibited region, I/O registers, high RAM, and the interrupt
//! registers IF and IE.  `bus_read_of` and `bus_write_of` are the address
//! map in mathematical form; the executable decoder is proved against them.

use vstd::prelude::*;

use crate::Memory;
use crate::RAM;
use crate::boot_rom::BootROM;
use crate::cartridge::Cartridge;
use crate::cartridge::ram_banks_of_code;
use crate::io::IO;
use crate::io::Interrupts;
use crate::io::io_read_of;
use crate::io::serial::Serial;
use crate::io::serial::SerialView;
use crate::io::serial::serial_write_of;
use crate::io::timer::Timer;
use crate::mbc::MBC1;
use crate::mbc::MbcView;
use crate::mbc::mbc_read_of;
use crate::mbc::mbc_wf;
use crate::mbc::mbc_write_of;

verus! {

/// The mathematical state of the bus and everything it owns.
#[verifier::ext_equal]
pub struct BusView {
    pub mbc: MbcView,
    pub vram: Seq<u8>,
    pub wram: Seq<u8>,
    pub hram: Seq<u8>,
    /// The boot-ROM overlay: present while active, destroyed by the first
    /// write to 0xFF50.
    pub boot: Option<Seq<u8>>,
    pub serial: SerialView,
    pub interrupt_enable: u8,
    pub interrupt_flags: u8,
    pub ly_stub: bool,
}

/// Region sizes are fixed, the interrupt registers hold five bits, and an
/// active boot overlay holds 256 bytes.
pub open spec fn bus_wf(b: BusView) -> bool {
    &&& mbc_wf(b.mbc)
    &&& b.vram.len() == 0x2000
    &&& b.wram.len() == 0x2000
    &&& b.hram.len() == 0x7F
    &&& (b.boot matches Some(data) ==> data.len() == 0x100)
    &&& b.interrupt_enable < 0x20
    &&& b.interrupt_flags < 0x20
}

/// The byte a bus read yields: the address map of the machine.
pub open spec fn bus_read_of(b: BusView, address: u16) -> u8 {
    if address < 0x100 && b.boot is Some {
        b.boot->0[address as int]
    } else if address < 0x8000 {
        mbc_read_of(b.mbc, address)
    } else if address < 0xA000 {
        b.vram[address - 0x8000]
    } else if address < 0xC000 {
        mbc_read_of(b.mbc, address)
    } else if address < 0xE000 {
        b.wram[address - 0xC000]
    } else if address < 0xFE00 {
        b.wram[address - 0xE000]
    } else if address < 0xFEA0 {
        0x00
    } else if address < 0xFF00 {
        0xFF
    } else if address == 0xFF01 || address == 0xFF02 {
        if address == 0xFF01 {
            b.serial.data
        } else {
            b.serial.control
        }
    } else if 0xFF04 <= address < 0xFF08 {
        0x00
    } else if address == 0xFF0F {
        b.interrupt_flags
    } else if address < 0xFF80 {
        io_read_of(b.ly_stub, address)
    } else if address < 0xFFFF {
        b.hram[address - 0xFF80]
    } else {
        b.interrupt_enable
    }
}

/// The bus state after a write: stores into RAM regions and the serial
/// registers, drives the MBC1 state machine below 0x8000, masks the
/// interrupt registers to five bits, disables the boot overlay at 0xFF50,
/// and ignores writes to the stubs and the prohibited region.
pub open spec fn bus_write_of(b: BusView, address: u16, value: u8) -> BusView {
    if address < 0x8000 {
        BusView { mbc: mbc_write_of(b.mbc, address, value), ..b }
    } else if address < 0xA000 {
        BusView { vram: b.vram.update(address - 0x8000, value), ..b }
    } else if address < 0xC000 {
        BusView { mbc: mbc_write_of(b.mbc, address, value), ..b }
    } else if address < 0xE000 {
        BusView { wram: b.wram.update(address - 0xC000, value), ..b }
    } else if address < 0xFE00 {
        BusView { wram: b.wram.update(address - 0xE000, value), ..b }
    } else if address < 0xFF00 {
        b
    } else if address == 0xFF01 || address == 0xFF02 {
        BusView { serial: serial_write_of(b.serial, address, value), ..b }
    } else if 0xFF04 <= address < 0xFF08 {
        b
    } else if address == 0xFF0F {
        BusView { interrupt_flags: value & 0x1F, ..b }
    } else if address == 0xFF50 {
        BusView { boot: None, ..b }
    } else if address < 0xFF80 {
        b
    } else if address < 0xFFFF {
        BusView { hram: b.hram.update(address - 0xFF80, value), ..b }
    } else {
        BusView { interrupt_enable: value & 0x1F, ..b }
    }
}

/// Length in bytes of the cartridge RAM the header declares.
pub open spec fn ram_size_of(rom: Seq<u8>) -> int {
    match ram_banks_of_code(rom[0x0149]) {
        Some((banks, size)) => banks * size,
        None => 0,
    }
}

/// The bus as it comes up: zeroed RAM regions, no boot overlay, interrupt
/// registers clear, serial sink empty, line-counter shim on.
pub open spec fn bus_init_of(rom: Seq<u8>) -> BusView {
    BusView {
        mbc: MbcView {
            rom: rom,
            ram: Seq::new(ram_size_of(rom) as nat, |i: int| 0u8),
            ram_enabled: false,
            low_bank: 1,
            high_bank: 0,
            ram_mode: false,
        },
        vram: Seq::new(0x2000, |i: int| 0u8),
        wram: Seq::new(0x2000, |i: int| 0u8),
        hram: Seq::new(0x7F, |i: int| 0u8),
        boot: None,
        serial: SerialView { data: 0, control: 0, output: Seq::<u8>::empty() },
        interrupt_enable: 0,
        interrupt_flags: 0,
        ly_stub: true,
    }
}

/// The bus and everything it owns: the MBC with the cartridge, the RAM
/// regions, the optional boot overlay, the stubs and the interrupt
/// registers.
pub struct Bus {
    mbc: MBC1,
    internal_ram: RAM,
    vram: RAM,
    zero_page: RAM,
    boot_rom: Option<BootROM>,
    io: IO,
    timer: Timer,
    interrupts: Interrupts,
    serial: Serial,
}

impl View for Bus {
    type V = BusView;

    closed spec fn view(&self) -> BusView {
        BusView {
            mbc: self.mbc@,
            vram: self.vram@,
            wram: self.internal_ram@,
            hram: self.zero_page@,
            boot: match self.boot_rom {
                Some(rom) => Some(rom@),
                None => None,
            },
            serial: self.serial@,
            interrupt_enable: self.interrupts.enable,
            interrupt_flags: self.interrupts.flags,
            ly_stub: self.io.ly_stub,
        }
    }
}

impl Bus {
    pub open spec fn wf(&self) -> bool {
        bus_wf(self@)
    }

    /// A bus over a fresh MBC1 for the cartridge, with zeroed RAM and no
    /// boot overlay.
    pub fn new(cartridge: Cartridge) -> (bus: Bus)
        requires
            cartridge.wf(),
        ensures
            bus.wf(),
            bus@ == bus_init_of(cartridge@),
    {
        let ghost rom = cartridge@;
        let mbc = MBC1::new(cartridge);
        let bus = Bus {
            mbc,
            internal_ram: RAM::new(0x2000),
            boot_rom: None,
            vram: RAM::new(0x2000),
            zero_page: RAM::new(0x7F),
            io: IO { ly_stub: true },
            timer: Timer {},
            interrupts: Interrupts::new(),
            serial: Serial::new(),
        };
        proof {
            assert(bus@ =~~= bus_init_of(rom));
        }
        bus
    }

    /// Install a boot-ROM overlay; it stays mapped until a write to 0xFF50.
    pub fn set_boot_rom(&mut self, boot: BootROM)
        ensures
            final(self)@ == (BusView { boot: Some(boot@), ..old(self)@ }),
            old(self).wf() && boot@.len() == 0x100 ==> final(self).wf(),
    {
        self.boot_rom = Some(boot);
        proof {
            assert(self@ =~~= (BusView { boot: Some(boot@), ..old(self)@ }));
        }
    }

    /// Turn the PPU line-counter shim at 0xFF44 on or off.
    pub fn set_ly_stub(&mut self, on: bool)
        ensures
            final(self)@ == (BusView { ly_stub: on, ..old(self)@ }),
            old(self).wf() ==> final(self).wf(),
    {
        self.io.ly_stub = on;
        proof {
            assert(self@ =~~= (BusView { ly_stub: on, ..old(self)@ }));
        }
    }

    /// The bytes the serial stub has captured so far, oldest first.
    pub fn serial_output(&self) -> (bytes: &Vec<u8>)
        ensures
            bytes@ == self@.serial.output,
    {
        self.serial.output()
    }

    /// Whether the boot-ROM overlay is still mapped.
    pub fn boot_rom_active(&self) -> (active: bool)
        ensures
            active == (self@.boot is Some),
    {
        self.boot_rom.is_some()
    }

    /// The interrupt-enable register IE.
    pub fn interrupt_enable(&self) -> (value: u8)
        ensures
            value == self@.interrupt_enable,
    {
        self.interrupts.enable
    }

    /// The interrupt-flag register IF.
    pub fn interrupt_flags(&self) -> (value: u8)
        ensures
            value == self@.interrupt_flags,
    {
        self.interrupts.flags
    }

    /// Raise one interrupt-flag bit, as a collaborator that owns the bus
    /// would to signal its interrupt.
    pub fn request_interrupt(&mut self, bit: u8)
        requires
            bit < 5,
        ensures
            final(self)@ == (BusView {
                interrupt_flags: old(self)@.interrupt_flags | (1u8 << bit),
                ..old(self)@
            }),
            old(self).wf() ==> final(self).wf(),
    {
        self.interrupts.flags = self.interrupts.flags | (1u8 << bit);
        proof {
            let f = old(self)@.interrupt_flags;
            assert(f < 0x20 && bit < 5 ==> (f | (1u8 << bit)) < 0x20) by (bit_vector);
            assert(self@ =~~= (BusView {
                interrupt_flags: old(self)@.interrupt_flags | (1u8 << bit),
                ..old(self)@
            }));
        }
    }

    /// Clear one interrupt-flag bit, as the dispatcher does when it takes
    /// the interrupt.
    pub fn acknowledge_interrupt(&mut self, bit: u8)
        requires
            bit < 5,
        ensures
            final(self)@ == (BusView {
                interrupt_flags: old(self)@.interrupt_flags & !(1u8 << bit),
                ..old(self)@
            }),
            old(self).wf() ==> final(self).wf(),
    {
        self.interrupts.flags = self.interrupts.flags & !(1u8 << bit);
        proof {
            let f = old(self)@.interrupt_flags;
            assert(f < 0x20 ==> (f & !(1u8 << bit)) < 0x20) by (bit_vector);
            assert(self@ =~~= (BusView {
                interrupt_flags: old(self)@.interrupt_flags & !(1u8 << bit),
                ..old(self)@
            }));
        }
    }
}

impl Bus {
    /// The byte at `address`, per the address map.
    pub fn read(&self, address: u16) -> (value: u8)
        requires
            self.wf(),
        ensures
            value == bus_read_of(self@, address),
    {
        if address < 0x100 && self.boot_rom.is_some() {
            match &self.boot_rom {
                Some(boot_rom) => boot_rom.read(address),
                None => 0xFF,
            }
        } else if address < 0x8000 {
            self.mbc.read(address)
        } else if address < 0xA000 {
            self.vram.read(address - 0x8000)
        } else if address < 0xC000 {
            self.mbc.read(address)
        } else if address < 0xE000 {
            self.internal_ram.read(address - 0xC000)
        } else if address < 0xFE00 {
            self.internal_ram.read(address - 0xE000)
        } else if address < 0xFEA0 {
            0x00
        } else if address < 0xFF00 {
            0xFF
        } else if address == 0xFF01 || address == 0xFF02 {
            self.serial.read(address)
        } else if 0xFF04 <= address && address < 0xFF08 {
            self.timer.read(address)
        } else if address == 0xFF0F {
            self.interrupts.flags
        } else if address < 0xFF80 {
            self.io.read(address)
        } else if address < 0xFFFF {
            self.zero_page.read(address - 0xFF80)
        } else {
            self.interrupts.enable
        }
    }

    /// Store a byte at `address`, per the address map.
    pub fn write(&mut self, address: u16, value: u8)
        requires
            old(self).wf(),
        ensures
            final(self)@ == bus_write_of(old(self)@, address, value),
            final(self).wf(),
    {
        if address < 0x8000 {
            self.mbc.write(address, value);
        } else if address < 0xA000 {
            self.vram.write(address - 0x8000, value);
        } else if address < 0xC000 {
            self.mbc.write(address, value);
        } else if address < 0xE000 {
            self.internal_ram.write(address - 0xC000, value);
        } else if address < 0xFE00 {
            self.internal_ram.write(address - 0xE000, value);
        } else if address < 0xFF00 {
            // OAM stub and prohibited region: writes are ignored
        } else if address == 0xFF01 || address == 0xFF02 {
            self.serial.write(address, value);
        } else if 0xFF04 <= address && address < 0xFF08 {
            self.timer.write(address, value);
        } else if address == 0xFF0F {
            self.interrupts.flags = value & 0x1F;
            proof {
                assert(value & 0x1F < 0x20) by (bit_vector);
            }
        } else if address == 0xFF50 {
            self.boot_rom = None;
        } else if address < 0xFF80 {
            self.io.write(address, value);
        } else if address < 0xFFFF {
            self.zero_page.write(address - 0xFF80, value);
        } else {
            self.interrupts.enable = value & 0x1F;
            proof {
                assert(value & 0x1F < 0x20) by (bit_vector);
            }
        }
        proof {
            assert(self@ =~~= bus_write_of(old(self)@, address, value));
        }
    }

    /// The little-endian word at `address`: low byte first.  The second
    /// byte comes from the address above, modulo 2^16.
    pub fn read_word(&self, address: u16) -> (value: u16)
        requires
            self.wf(),
        ensures
            value == bus_read_of(self@, address) + 0x100 * bus_read_of(
                self@,
                crate::wadd16(address, 1),
            ),
    {
        let low = self.read(address) as u16;
        let high = self.read(address.wrapping_add(1)) as u16;
        high * 0x100 + low
    }

    /// Store a word at `address` in little-endian order: low byte first,
    /// high byte at the address above, modulo 2^16.
    pub fn write_word(&mut self, address: u16, value: u16)
        requires
            old(self).wf(),
        ensures
            final(self)@ == bus_write_of(
                bus_write_of(old(self)@, address, (value % 0x100) as u8),
                crate::wadd16(address, 1),
                (value / 0x100) as u8,
            ),
            final(self).wf(),
    {
        self.write(address, (value % 0x100) as u8);
        self.write(address.wrapping_add(1), (value / 0x100) as u8);
    }
}

/// Echo RAM: reads of 0xE000-0xFDFF mirror the work RAM at 0xC000-0xDDFF.
pub proof fn lemma_echo_ram(b: BusView, address: u16)
    requires
        bus_wf(b),
        0xC000 <= address <= 0xDDFF,
    ensures
        bus_read_of(b, address) == bus_read_of(b, (address + 0x2000) as u16),
{
}

/// Echo RAM on the write side: a write to either alias of a work-RAM cell
/// changes both reads alike.
pub proof fn lemma_echo_ram_write(b: BusView, address: u16, value: u8)
    requires
        bus_wf(b),
        0xC000 <= address <= 0xDDFF,
    ensures
        bus_read_of(bus_write_of(b, address, value), address) == value,
        bus_read_of(bus_write_of(b, address, value), (address + 0x2000) as u16) == value,
        bus_read_of(bus_write_of(b, (address + 0x2000) as u16, value), address) == value,
{
}

/// Any write to 0xFF50 destroys the boot overlay: reads at the bottom of
/// the address space route to bank 0 of the MBC thereafter.
pub proof fn lemma_boot_disable(b: BusView, value: u8)
    requires
        bus_wf(b),
    ensures
        ({
            let after = bus_write_of(b, 0xFF50, value);
            after.boot is None && after.mbc == b.mbc && bus_read_of(after, 0x0000) == mbc_read_of(
                b.mbc,
                0x0000,
            )
        }),
{
}

/// Once the boot overlay is gone, no bus write brings it back: the
/// disable is permanent.
pub proof fn lemma_boot_stays_disabled(b: BusView, address: u16, value: u8)
    requires
        b.boot is None,
    ensures
        bus_write_of(b, address, value).boot is None,
{
}

} // verus!
