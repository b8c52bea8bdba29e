//! The MBC1 bank switcher.
//!
//! MBC1 multiplexes up to 125 ROM banks and 4 RAM banks into the 16-bit
//! address space.  Writes into the ROM window drive the state machine: a
//! RAM-enable latch, a 5-bit low ROM bank selector, a 2-bit secondary
//! selector and a mode flag.  A low selector of zero is observed as one, so
//! the switchable window never shows bank 0 and the combined selectors
//! 0x20, 0x40 and 0x60 are observed as 0x21, 0x41 and 0x61.

use vstd::prelude::*;

use crate::Memory;
use crate::cartridge::Cartridge;
use crate::cartridge::ram_banks_of_code;

verus! {

/// What the secondary selector steers: upper ROM bank bits or the RAM bank.
#[derive(Clone, Copy, Debug, PartialEq, Eq, Structural)]
enum BankMode {
    ROM,
    RAM,
}

/// The mathematical state of an MBC1: the two byte arrays and the four
/// switching registers.
#[verifier::ext_equal]
pub struct MbcView {
    pub rom: Seq<u8>,
    pub ram: Seq<u8>,
    pub ram_enabled: bool,
    pub low_bank: u8,
    pub high_bank: u8,
    pub ram_mode: bool,
}

/// The selectors stay in range: five bits for the low one, two for the
/// secondary.
pub open spec fn mbc_wf(m: MbcView) -> bool {
    m.low_bank < 0x20 && m.high_bank < 0x04
}

/// The ROM bank visible in the switchable window 0x4000-0x7FFF: the low
/// selector (zero observed as one) with the secondary selector above it.
pub open spec fn effective_rom_bank(m: MbcView) -> int {
    (if m.low_bank == 0 {
        1int
    } else {
        m.low_bank as int
    }) + 0x20 * (m.high_bank as int)
}

/// First RAM index of the selected RAM bank: the secondary selector picks
/// the bank in RAM mode; ROM mode pins bank 0.
pub open spec fn ram_bank_base(m: MbcView) -> int {
    (if m.ram_mode {
        m.high_bank as int
    } else {
        0int
    }) * 0x2000
}

/// The byte an MBC1 read yields.  Reads beyond the image and reads of
/// disabled or absent RAM yield 0xFF.
pub open spec fn mbc_read_of(m: MbcView, address: u16) -> u8 {
    if address < 0x4000 {
        if address < m.rom.len() {
            m.rom[address as int]
        } else {
            0xFF
        }
    } else if address < 0x8000 {
        let idx = effective_rom_bank(m) * 0x4000 + (address - 0x4000);
        if idx < m.rom.len() {
            m.rom[idx]
        } else {
            0xFF
        }
    } else if 0xA000 <= address < 0xC000 {
        if m.ram_enabled {
            let idx = ram_bank_base(m) + (address - 0xA000);
            if idx < m.ram.len() {
                m.ram[idx]
            } else {
                0xFF
            }
        } else {
            0xFF
        }
    } else {
        0xFF
    }
}

/// The MBC1 state after a write.  Writes below 0x8000 drive the switching
/// registers; writes into 0xA000-0xBFFF land in enabled RAM and are ignored
/// otherwise.
pub open spec fn mbc_write_of(m: MbcView, address: u16, value: u8) -> MbcView {
    if address < 0x2000 {
        MbcView { ram_enabled: value & 0x0F == 0x0A, ..m }
    } else if address < 0x4000 {
        MbcView { low_bank: value & 0x1F, ..m }
    } else if address < 0x6000 {
        MbcView { high_bank: value & 0x03, ..m }
    } else if address < 0x8000 {
        MbcView { ram_mode: value & 0x01 == 0x01, ..m }
    } else if 0xA000 <= address < 0xC000 {
        if m.ram_enabled {
            let idx = ram_bank_base(m) + (address - 0xA000);
            if 0 <= idx < m.ram.len() {
                MbcView { ram: m.ram.update(idx, value), ..m }
            } else {
                m
            }
        } else {
            m
        }
    } else {
        m
    }
}

/// The MBC1 with its cartridge, its RAM and the switching registers.
pub struct MBC1 {
    cartridge: Cartridge,
    ram: Vec<u8>,
    ram_enabled: bool,
    rom_bank: u8,
    ram_bank: u8,
    bank_mode: BankMode,
}

impl View for MBC1 {
    type V = MbcView;

    closed spec fn view(&self) -> MbcView {
        MbcView {
            rom: self.cartridge@,
            ram: self.ram@,
            ram_enabled: self.ram_enabled,
            low_bank: self.rom_bank,
            high_bank: self.ram_bank,
            ram_mode: self.bank_mode is RAM,
        }
    }
}

impl MBC1 {
    pub open spec fn wf(&self) -> bool {
        mbc_wf(self@)
    }

    /// Wrap a cartridge: RAM sized from the header, RAM disabled, low
    /// selector 1, secondary selector 0, ROM banking mode.
    pub fn new(cartridge: Cartridge) -> (mbc: MBC1)
        requires
            cartridge.wf(),
        ensures
            mbc.wf(),
            mbc@.rom == cartridge@,
            ram_banks_of_code(cartridge@[0x0149]) matches Some((banks, size)) && mbc@.ram.len()
                == banks * size,
            !mbc@.ram_enabled,
            mbc@.low_bank == 1,
            mbc@.high_bank == 0,
            !mbc@.ram_mode,
            forall|i: int| 0 <= i < mbc@.ram.len() ==> mbc@.ram[i] == 0,
    {
        let (banks, bank_size) = cartridge.ram_banks();
        let ram: Vec<u8> = vec![0u8; banks * bank_size];
        MBC1 {
            cartridge,
            ram,
            ram_enabled: false,
            rom_bank: 1,
            ram_bank: 0,
            bank_mode: BankMode::ROM,
        }
    }

    /// Store a value into the 5-bit low ROM bank selector.
    pub fn set_rom_bank(&mut self, bank: u8)
        ensures
            final(self)@ == (MbcView { low_bank: bank & 0x1F, ..old(self)@ }),
            old(self).wf() ==> final(self).wf(),
    {
        self.rom_bank = bank & 0x1F;
        proof {
            assert(bank & 0x1F < 0x20) by (bit_vector);
            assert(self@ =~= (MbcView { low_bank: bank & 0x1F, ..old(self)@ }));
        }
    }

    /// The bank the switchable window shows, selectors combined and the
    /// zero remap applied.
    pub fn rom_bank(&self) -> (bank: u8)
        requires
            self.wf(),
        ensures
            bank as int == effective_rom_bank(self@),
    {
        let low: u8 = if self.rom_bank == 0 {
            1
        } else {
            self.rom_bank
        };
        low + 0x20 * self.ram_bank
    }

    /// Whether the RAM-enable latch is set.
    pub fn ram_enabled(&self) -> (enabled: bool)
        ensures
            enabled == self@.ram_enabled,
    {
        self.ram_enabled
    }
}

impl Memory for MBC1 {
    open spec fn mem_valid(&self, address: u16) -> bool {
        self.wf() && (address < 0x8000 || 0xA000 <= address < 0xC000)
    }

    open spec fn mem_read(&self, address: u16) -> u8 {
        mbc_read_of(self@, address)
    }

    fn read(&self, address: u16) -> u8 {
        if address < 0x4000 {
            if (address as usize) < self.cartridge.rom.len() {
                self.cartridge.rom[address as usize]
            } else {
                0xFF
            }
        } else if address < 0x8000 {
            let bank = self.rom_bank() as usize;
            let idx = bank * 0x4000 + (address as usize - 0x4000);
            if idx < self.cartridge.rom.len() {
                self.cartridge.rom[idx]
            } else {
                0xFF
            }
        } else {
            if self.ram_enabled {
                let bank: usize = match self.bank_mode {
                    BankMode::RAM => self.ram_bank as usize,
                    BankMode::ROM => 0,
                };
                let idx = bank * 0x2000 + (address as usize - 0xA000);
                if idx < self.ram.len() {
                    self.ram[idx]
                } else {
                    0xFF
                }
            } else {
                0xFF
            }
        }
    }

    fn write(&mut self, address: u16, value: u8)
        ensures
            final(self)@ == mbc_write_of(old(self)@, address, value),
            final(self).wf(),
    {
        if address < 0x2000 {
            self.ram_enabled = value & 0x0F == 0x0A;
        } else if address < 0x4000 {
            self.rom_bank = value & 0x1F;
            proof {
                assert(value & 0x1F < 0x20) by (bit_vector);
            }
        } else if address < 0x6000 {
            self.ram_bank = value & 0x03;
            proof {
                assert(value & 0x03 < 0x04) by (bit_vector);
            }
        } else if address < 0x8000 {
            self.bank_mode = if value & 0x01 == 0x01 {
                BankMode::RAM
            } else {
                BankMode::ROM
            };
        } else {
            if self.ram_enabled {
                let bank: usize = match self.bank_mode {
                    BankMode::RAM => self.ram_bank as usize,
                    BankMode::ROM => 0,
                };
                let idx = bank * 0x2000 + (address as usize - 0xA000);
                if idx < self.ram.len() {
                    self.ram[idx] = value;
                }
            }
        }
        proof {
            assert(self@ =~= mbc_write_of(old(self)@, address, value));
        }
    }
}

/// The zero-bank remap: a low selector of zero computes to bank 1, and the
/// combined selectors 0x20, 0x40 and 0x60 (a zero low selector under a
/// nonzero secondary selector) compute to 0x21, 0x41 and 0x61.
pub proof fn lemma_rom_bank_remap(m: MbcView)
    requires
        mbc_wf(m),
    ensures
        m.low_bank == 0 && m.high_bank == 0 ==> effective_rom_bank(m) == 1,
        m.low_bank == 0 && m.high_bank == 1 ==> effective_rom_bank(m) == 0x21,
        m.low_bank == 0 && m.high_bank == 2 ==> effective_rom_bank(m) == 0x41,
        m.low_bank == 0 && m.high_bank == 3 ==> effective_rom_bank(m) == 0x61,
        effective_rom_bank(m) % 0x20 != 0,
{
}

} // verus!
