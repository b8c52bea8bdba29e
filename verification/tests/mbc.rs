use gbcore::Memory;
use gbcore::cartridge::Cartridge;
use gbcore::mbc::MBC1;

fn cartridge_with(cartridge_type: u8, rom_code: u8, ram_code: u8) -> Cartridge {
    let mut rom = vec![0u8; 0x8000];
    rom[0x0147] = cartridge_type;
    rom[0x0148] = rom_code;
    rom[0x0149] = ram_code;
    Cartridge::new(rom).unwrap()
}

#[test]
fn test_write_byte_ram_enabled() {
    let cartridge = cartridge_with(0x01, 0x00, 0x02);
    let mut mbc = MBC1::new(cartridge);
    mbc.write(0x0000, 0x0A);
    assert_eq!(mbc.ram_enabled(), true);

    mbc.write(0x0000, 0x00);
    assert_eq!(mbc.ram_enabled(), false);
}

#[test]
fn test_write_byte_rom_bank_number() {
    let cartridge = cartridge_with(0x01, 0x00, 0x02);
    let mut mbc = MBC1::new(cartridge);
    mbc.write(0x2000, 0x01);
    assert_eq!(mbc.rom_bank(), 1);

    mbc.write(0x2000, 0x1F);
    assert_eq!(mbc.rom_bank() as usize, 0x1F);

    mbc.write(0x2000, 0x20);
    assert_eq!(mbc.rom_bank() as usize, 1);

    mbc.write(0x2000, 0x00);
    assert_eq!(mbc.rom_bank() as usize, 1);
}

#[test]
fn test_zero_bank_remap() {
    let cartridge = cartridge_with(0x01, 0x00, 0x00);
    let mut mbc = MBC1::new(cartridge);
    // A zero low selector computes to bank 1 under every secondary
    // selector: 0x00 -> 0x01, 0x20 -> 0x21, 0x40 -> 0x41, 0x60 -> 0x61.
    for (secondary, expected) in [(0u8, 0x01u8), (1, 0x21), (2, 0x41), (3, 0x61)] {
        mbc.write(0x2000, 0x00);
        mbc.write(0x4000, secondary);
        assert_eq!(mbc.rom_bank(), expected);
    }
}

#[test]
fn test_ram_read_write() {
    let cartridge = cartridge_with(0x01, 0x00, 0x02);
    let mut mbc = MBC1::new(cartridge);
    // Disabled RAM reads as 0xFF and ignores writes.
    assert_eq!(mbc.read(0xA000), 0xFF);
    mbc.write(0xA000, 0x55);
    assert_eq!(mbc.read(0xA000), 0xFF);
    // Enabled RAM stores and yields the byte.
    mbc.write(0x0000, 0x0A);
    mbc.write(0xA000, 0x55);
    assert_eq!(mbc.read(0xA000), 0x55);
    mbc.write(0x0000, 0x00);
    assert_eq!(mbc.read(0xA000), 0xFF);
}

#[test]
fn test_absent_ram_reads_ff() {
    let cartridge = cartridge_with(0x01, 0x00, 0x00);
    let mut mbc = MBC1::new(cartridge);
    mbc.write(0x0000, 0x0A);
    assert_eq!(mbc.read(0xA000), 0xFF);
    mbc.write(0xA000, 0x55);
    assert_eq!(mbc.read(0xA000), 0xFF);
}

#[test]
fn test_switchable_window() {
    let mut rom = vec![0u8; 0x10000];
    rom[0x0147] = 0x01;
    rom[0x0148] = 0x01;
    rom[0x0149] = 0x00;
    rom[0x4000] = 0xAA;
    rom[0x8000] = 0xBB;
    rom[0xC000] = 0xCC;
    let mut mbc = MBC1::new(Cartridge::new(rom).unwrap());
    assert_eq!(mbc.read(0x4000), 0xAA);
    mbc.write(0x2000, 0x02);
    assert_eq!(mbc.read(0x4000), 0xBB);
    mbc.write(0x2000, 0x03);
    assert_eq!(mbc.read(0x4000), 0xCC);
    // Reads past the image yield 0xFF.
    mbc.write(0x2000, 0x1F);
    assert_eq!(mbc.read(0x4000), 0xFF);
}
