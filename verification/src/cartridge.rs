//! The cartridge image and its header.
//!
//! The header lives at 0x0100-0x014F of the ROM: title, cartridge type,
//! ROM/RAM size codes, destination flag and the 8-bit header checksum.

use vstd::prelude::*;

use crate::push_char;

verus! {

/// A loaded cartridge ROM image.
pub struct Cartridge {
    /// Cartridge ROM
    pub rom: Vec<u8>,
}

/// The memory-bank controller the cartridge declares at 0x0147.
/// Only the plain ROM and the MBC1 configurations are supported.
#[derive(Clone, Copy, Debug, PartialEq, Eq, Structural)]
pub enum CartridgeType {
    ROMOnly,
    MBC1,
}

/// The destination flag at 0x014A.
#[derive(Clone, Copy, Debug, PartialEq, Eq, Structural)]
pub enum Destination {
    Japanese,
    NonJapanese,
}

/// A fault found while constructing a cartridge from its image.
#[derive(Clone, Copy, Debug, PartialEq, Eq, Structural)]
pub enum CartridgeError {
    /// The image ends before the header does.
    TooShort,
    /// The type code at 0x0147 names an unsupported bank controller.
    UnsupportedType(u8),
    /// The ROM size code at 0x0148 is not in the documented table.
    UnknownRomSize(u8),
    /// The RAM size code at 0x0149 is not in the documented table.
    UnknownRamSize(u8),
}

/// Number of 16 KiB ROM banks for a size code, per the documented table.
pub open spec fn rom_banks_of_code(code: u8) -> Option<int> {
    match code {
        0x00 => Some(2),
        0x01 => Some(4),
        0x02 => Some(8),
        0x03 => Some(16),
        0x04 => Some(32),
        0x05 => Some(64),
        0x06 => Some(128),
        0x07 => Some(256),
        0x08 => Some(512),
        0x52 => Some(72),
        0x53 => Some(80),
        0x54 => Some(96),
        _ => None,
    }
}

/// RAM bank count and bank size in bytes for a size code.
pub open spec fn ram_banks_of_code(code: u8) -> Option<(int, int)> {
    match code {
        0x00 => Some((0, 0)),
        0x01 => Some((1, 2048)),
        0x02 => Some((1, 8192)),
        0x03 => Some((4, 8192)),
        0x04 => Some((16, 8192)),
        0x05 => Some((8, 8192)),
        _ => None,
    }
}

/// A well-formed image: long enough to hold the header, with known type and
/// size codes.  `Cartridge::new` establishes this; the header accessors
/// rely on it.
pub open spec fn rom_wf(rom: Seq<u8>) -> bool {
    &&& rom.len() >= 0x0150
    &&& (rom[0x0147] == 0x00 || rom[0x0147] == 0x01)
    &&& rom_banks_of_code(rom[0x0148]) is Some
    &&& ram_banks_of_code(rom[0x0149]) is Some
}

/// Number of title bytes at or after offset `i` of the title field, up to
/// the first NUL, bounded by the sixteen-byte field.
pub open spec fn title_len_from(rom: Seq<u8>, i: int) -> int
    decreases 16 - i,
{
    if i < 0 || i >= 16 {
        0
    } else if rom[0x0134 + i] == 0 {
        0
    } else {
        1 + title_len_from(rom, i + 1)
    }
}

/// Length of the title: the bytes from 0x0134 up to the first NUL, bounded
/// by the sixteen-byte title field.
pub open spec fn title_len(rom: Seq<u8>) -> int {
    title_len_from(rom, 0)
}

/// The running 8-bit header checksum over 0x0134..0x0134+n of
/// `x = x - byte - 1`, starting from zero.
pub open spec fn header_checksum(rom: Seq<u8>, n: int) -> u8
    decreases n,
{
    if n <= 0 {
        0
    } else {
        vstd::wrapping::u8_specs::wrapping_sub(
            vstd::wrapping::u8_specs::wrapping_sub(header_checksum(rom, n - 1), rom[0x0134 + n - 1]),
            1,
        )
    }
}

impl View for Cartridge {
    type V = Seq<u8>;

    open spec fn view(&self) -> Seq<u8> {
        self.rom@
    }
}

impl Cartridge {
    pub open spec fn wf(&self) -> bool {
        rom_wf(self@)
    }

    /// Wrap a ROM image, validating the header fields the core relies on.
    /// Returns the image unchanged on success; the first fault otherwise,
    /// checked in the order: length, type code, ROM size code, RAM size code.
    pub fn new(rom: Vec<u8>) -> (result: Result<Cartridge, CartridgeError>)
        ensures
            match result {
                Ok(c) => c@ == rom@ && c.wf(),
                Err(e) => !rom_wf(rom@) && match e {
                    CartridgeError::TooShort => rom@.len() < 0x0150,
                    CartridgeError::UnsupportedType(t) => rom@.len() >= 0x0150 && t == rom@[0x0147]
                        && t != 0x00 && t != 0x01,
                    CartridgeError::UnknownRomSize(s) => rom@.len() >= 0x0150 && s == rom@[0x0148]
                        && (rom@[0x0147] == 0x00 || rom@[0x0147] == 0x01) && rom_banks_of_code(s)
                        is None,
                    CartridgeError::UnknownRamSize(s) => rom@.len() >= 0x0150 && s == rom@[0x0149]
                        && (rom@[0x0147] == 0x00 || rom@[0x0147] == 0x01) && rom_banks_of_code(
                        rom@[0x0148],
                    ) is Some && ram_banks_of_code(s) is None,
                },
            },
    {
        if rom.len() < 0x0150 {
            return Err(CartridgeError::TooShort);
        }
        let type_code = rom[0x0147];
        if type_code != 0x00 && type_code != 0x01 {
            return Err(CartridgeError::UnsupportedType(type_code));
        }
        let rom_code = rom[0x0148];
        if !(rom_code <= 0x08 || rom_code == 0x52 || rom_code == 0x53 || rom_code == 0x54) {
            return Err(CartridgeError::UnknownRomSize(rom_code));
        }
        let ram_code = rom[0x0149];
        if ram_code > 0x05 {
            return Err(CartridgeError::UnknownRamSize(ram_code));
        }
        Ok(Cartridge { rom })
    }

    /// The title: ASCII bytes from 0x0134 up to the first NUL, at most
    /// sixteen characters.
    pub fn name(&self) -> (name: String)
        requires
            self.wf(),
        ensures
            name@.len() == title_len(self@),
            forall|i: int| 0 <= i < name@.len() ==> name@[i] == self@[0x0134 + i] as char,
    {
        let mut name = String::new();
        let mut i: usize = 0;
        while i < 16
            invariant
                self.wf(),
                0 <= i <= 16,
                name@.len() == i,
                forall|j: int| 0 <= j < i ==> name@[j] == self@[0x0134 + j] as char,
                forall|j: int| 0 <= j < i ==> #[trigger] self@[0x0134 + j] != 0,
            decreases 16 - i,
        {
            let byte = self.rom[0x0134 + i];
            if byte == 0x00 {
                proof {
                    lemma_title_len_at(self@, i as int, 0);
                }
                return name;
            }
            push_char(&mut name, byte as char);
            i += 1;
        }
        proof {
            lemma_title_len_at(self@, 16, 0);
        }
        name
    }

    /// The bank controller named by the type code at 0x0147.
    pub fn cartridge_type(&self) -> (t: CartridgeType)
        requires
            self.wf(),
        ensures
            t == (if self@[0x0147] == 0x00 {
                CartridgeType::ROMOnly
            } else {
                CartridgeType::MBC1
            }),
    {
        if self.rom[0x0147] == 0x00 {
            CartridgeType::ROMOnly
        } else {
            CartridgeType::MBC1
        }
    }

    /// Number of 16 KiB ROM banks, decoded from the size code at 0x0148.
    pub fn rom_banks(&self) -> (banks: usize)
        requires
            self.wf(),
        ensures
            Some(banks as int) == rom_banks_of_code(self@[0x0148]),
    {
        match self.rom[0x0148] {
            0x00 => 2,
            0x01 => 4,
            0x02 => 8,
            0x03 => 16,
            0x04 => 32,
            0x05 => 64,
            0x06 => 128,
            0x07 => 256,
            0x08 => 512,
            0x52 => 72,
            0x53 => 80,
            _ => 96,
        }
    }

    /// RAM bank count and bank size in bytes, from the size code at 0x0149.
    pub fn ram_banks(&self) -> (banks: (usize, usize))
        requires
            self.wf(),
        ensures
            Some((banks.0 as int, banks.1 as int)) == ram_banks_of_code(self@[0x0149]),
    {
        match self.rom[0x0149] {
            0x00 => (0, 0),
            0x01 => (1, 2048),
            0x02 => (1, 8192),
            0x03 => (4, 8192),
            0x04 => (16, 8192),
            _ => (8, 8192),
        }
    }

    /// The destination flag at 0x014A: zero means the Japanese market.
    pub fn destination(&self) -> (d: Destination)
        requires
            self.wf(),
        ensures
            d == (if self@[0x014A] == 0x00 {
                Destination::Japanese
            } else {
                Destination::NonJapanese
            }),
    {
        if self.rom[0x014A] == 0x00 {
            Destination::Japanese
        } else {
            Destination::NonJapanese
        }
    }

    /// Whether the 8-bit sum over 0x0134..=0x014C of `x = x - byte - 1`
    /// equals the checksum byte at 0x014D.
    pub fn validate_header(&self) -> (ok: bool)
        requires
            self.wf(),
        ensures
            ok == (header_checksum(self@, 0x19) == self@[0x014D]),
    {
        let mut x: u8 = 0;
        let mut i: usize = 0;
        while i < 0x19
            invariant
                self.wf(),
                0 <= i <= 0x19,
                x == header_checksum(self@, i as int),
            decreases 0x19 - i,
        {
            x = x.wrapping_sub(self.rom[0x0134 + i]).wrapping_sub(1);
            i += 1;
        }
        x == self.rom[0x014D]
    }
}

/// If the title bytes at offsets `k..i` are nonzero and the byte at `i` is
/// NUL (or `i` is the end of the field), the title runs exactly to `i`.
proof fn lemma_title_len_at(rom: Seq<u8>, i: int, k: int)
    requires
        0 <= k <= i <= 16,
        forall|j: int| k <= j < i ==> #[trigger] rom[0x0134 + j] != 0,
        i < 16 ==> rom[0x0134 + i] == 0,
    ensures
        title_len_from(rom, k) == i - k,
    decreases i - k,
{
    if k < i {
        lemma_title_len_at(rom, i, k + 1);
    }
}

} // verus!
