use gbcore::cartridge::Cartridge;
use gbcore::cartridge::CartridgeError;
use gbcore::cartridge::CartridgeType;
use gbcore::cartridge::Destination;

fn blank_rom() -> Vec<u8> {
    vec![0u8; 0x8000]
}

#[test]
fn test_header_fields() {
    let mut rom = blank_rom();
    rom[0x0147] = 0x01;
    rom[0x0148] = 0x05;
    rom[0x0149] = 0x03;
    rom[0x014A] = 0x01;
    let cartridge = Cartridge::new(rom).unwrap();
    assert_eq!(cartridge.cartridge_type(), CartridgeType::MBC1);
    assert_eq!(cartridge.rom_banks(), 64);
    assert_eq!(cartridge.ram_banks(), (4, 8192));
    assert_eq!(cartridge.destination(), Destination::NonJapanese);
}

#[test]
fn test_rom_bank_table() {
    let codes = [
        (0x00u8, 2usize),
        (0x01, 4),
        (0x02, 8),
        (0x03, 16),
        (0x04, 32),
        (0x05, 64),
        (0x06, 128),
        (0x07, 256),
        (0x08, 512),
        (0x52, 72),
        (0x53, 80),
        (0x54, 96),
    ];
    for (code, banks) in codes {
        let mut rom = blank_rom();
        rom[0x0148] = code;
        let cartridge = Cartridge::new(rom).unwrap();
        assert_eq!(cartridge.rom_banks(), banks);
    }
}

#[test]
fn test_ram_bank_table() {
    let codes = [
        (0x00u8, (0usize, 0usize)),
        (0x01, (1, 2048)),
        (0x02, (1, 8192)),
        (0x03, (4, 8192)),
        (0x04, (16, 8192)),
        (0x05, (8, 8192)),
    ];
    for (code, banks) in codes {
        let mut rom = blank_rom();
        rom[0x0149] = code;
        let cartridge = Cartridge::new(rom).unwrap();
        assert_eq!(cartridge.ram_banks(), banks);
    }
}

#[test]
fn test_construction_errors() {
    assert!(matches!(Cartridge::new(vec![0u8; 0x100]), Err(CartridgeError::TooShort)));

    let mut rom = blank_rom();
    rom[0x0147] = 0x13;
    assert!(matches!(Cartridge::new(rom), Err(CartridgeError::UnsupportedType(0x13))));

    let mut rom = blank_rom();
    rom[0x0148] = 0x09;
    assert!(matches!(Cartridge::new(rom), Err(CartridgeError::UnknownRomSize(0x09))));

    let mut rom = blank_rom();
    rom[0x0149] = 0x06;
    assert!(matches!(Cartridge::new(rom), Err(CartridgeError::UnknownRamSize(0x06))));
}

#[test]
fn test_title_parse() {
    let mut rom = blank_rom();
    for (i, byte) in b"TETRIS".iter().enumerate() {
        rom[0x0134 + i] = *byte;
    }
    let cartridge = Cartridge::new(rom).unwrap();
    assert_eq!(cartridge.name(), "TETRIS");

    let mut rom = blank_rom();
    for i in 0..16 {
        rom[0x0134 + i] = b'A';
    }
    // A sixteen-byte title has no terminator: the field boundary stops it.
    let cartridge = Cartridge::new(rom).unwrap();
    assert_eq!(cartridge.name(), "AAAAAAAAAAAAAAAA");
}

#[test]
fn test_header_checksum() {
    let mut rom = blank_rom();
    for (i, byte) in b"CHECKSUM".iter().enumerate() {
        rom[0x0134 + i] = *byte;
    }
    let mut x: u8 = 0;
    for i in 0x0134..=0x014C {
        x = x.wrapping_sub(rom[i]).wrapping_sub(1);
    }
    rom[0x014D] = x;
    let cartridge = Cartridge::new(rom).unwrap();
    assert!(cartridge.validate_header());

    let mut rom2 = cartridge.rom.clone();
    rom2[0x014D] = x.wrapping_add(1);
    let cartridge = Cartridge::new(rom2).unwrap();
    assert!(!cartridge.validate_header());
}
