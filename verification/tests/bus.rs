use gbcore::boot_rom::BootROM;
use gbcore::bus::Bus;
use gbcore::cartridge::Cartridge;

fn fresh_bus() -> Bus {
    let mut rom = vec![0u8; 0x8000];
    rom[0x0000] = 0x42;
    rom[0x0147] = 0x01;
    rom[0x0149] = 0x02;
    Bus::new(Cartridge::new(rom).unwrap())
}

#[test]
fn test_echo_ram_identity() {
    let mut bus = fresh_bus();
    bus.write(0xC123, 0x9A);
    assert_eq!(bus.read(0xC123), 0x9A);
    assert_eq!(bus.read(0xE123), 0x9A);
    bus.write(0xFDFF, 0x77);
    assert_eq!(bus.read(0xDDFF), 0x77);
    for address in [0xC000u16, 0xC800, 0xDDFF] {
        assert_eq!(bus.read(address), bus.read(address + 0x2000));
    }
}

#[test]
fn test_boot_rom_overlay_and_disable() {
    let mut bus = fresh_bus();
    assert!(!bus.boot_rom_active());
    assert_eq!(bus.read(0x0000), 0x42);

    let mut boot = vec![0u8; 0x100];
    boot[0] = 0x31;
    bus.set_boot_rom(BootROM::new(boot));
    assert!(bus.boot_rom_active());
    assert_eq!(bus.read(0x0000), 0x31);
    // The overlay covers only the first 256 bytes.
    assert_eq!(bus.read(0x0100), 0x00);

    // Any write to 0xFF50 destroys the overlay for good.
    bus.write(0xFF50, 0x01);
    assert!(!bus.boot_rom_active());
    assert_eq!(bus.read(0x0000), 0x42);
}

#[test]
fn test_prohibited_region() {
    let mut bus = fresh_bus();
    for address in [0xFEA0u16, 0xFEC3, 0xFEFF] {
        assert_eq!(bus.read(address), 0xFF);
        bus.write(address, 0x12);
        assert_eq!(bus.read(address), 0xFF);
    }
}

#[test]
fn test_interrupt_registers_mask_to_five_bits() {
    let mut bus = fresh_bus();
    bus.write(0xFFFF, 0xFF);
    assert_eq!(bus.read(0xFFFF), 0x1F);
    bus.write(0xFF0F, 0xE5);
    assert_eq!(bus.read(0xFF0F), 0x05);
}

#[test]
fn test_serial_sink() {
    let mut bus = fresh_bus();
    bus.write(0xFF01, 0x48);
    // A control write without the trigger pattern captures nothing.
    bus.write(0xFF02, 0x80);
    assert_eq!(bus.serial_output().len(), 0);
    bus.write(0xFF02, 0x81);
    assert_eq!(bus.serial_output().as_slice(), &[0x48]);
    // Registers read back the last written values.
    assert_eq!(bus.read(0xFF01), 0x48);
    assert_eq!(bus.read(0xFF02), 0x81);
    bus.write(0xFF01, 0x69);
    bus.write(0xFF02, 0x81);
    assert_eq!(bus.serial_output().as_slice(), &[0x48, 0x69]);
}

#[test]
fn test_ly_stub_toggle() {
    let mut bus = fresh_bus();
    assert_eq!(bus.read(0xFF44), 0x90);
    bus.set_ly_stub(false);
    assert_eq!(bus.read(0xFF44), 0x00);
    bus.set_ly_stub(true);
    assert_eq!(bus.read(0xFF44), 0x90);
}

#[test]
fn test_high_ram_and_vram() {
    let mut bus = fresh_bus();
    bus.write(0xFF80, 0x11);
    bus.write(0xFFFE, 0x22);
    assert_eq!(bus.read(0xFF80), 0x11);
    assert_eq!(bus.read(0xFFFE), 0x22);
    bus.write(0x8000, 0x33);
    bus.write(0x9FFF, 0x44);
    assert_eq!(bus.read(0x8000), 0x33);
    assert_eq!(bus.read(0x9FFF), 0x44);
}

#[test]
fn test_word_helpers_little_endian() {
    let mut bus = gbcore::bus::Bus::new(Cartridge::new(vec![0u8; 0x8000]).unwrap());
    bus.write_word(0xC000, 0xBEEF);
    assert_eq!(bus.read(0xC000), 0xEF);
    assert_eq!(bus.read(0xC001), 0xBE);
    assert_eq!(bus.read_word(0xC000), 0xBEEF);
}
