use gbcore::registers::Flags;
use gbcore::registers::Registers;

#[test]
fn test_flags() {
    let mut flags = Flags::new();
    assert_eq!(flags.carry(), false);
    assert_eq!(flags.half_carry(), false);
    assert_eq!(flags.subtract(), false);
    assert_eq!(flags.zero(), false);

    assert_eq!(0b0000_0000u8, flags.to_byte());

    flags.set_carry(true);
    flags.set_half_carry(true);
    flags.set_subtract(true);
    flags.set_zero(true);
    assert_eq!(flags.carry(), true);
    assert_eq!(flags.half_carry(), true);
    assert_eq!(flags.subtract(), true);
    assert_eq!(flags.zero(), true);
    assert_eq!(0b1111_0000u8, flags.to_byte());

    flags.set_carry(false);
    flags.set_half_carry(true);
    flags.set_subtract(false);
    flags.set_zero(true);

    assert_eq!(0b1010_0000u8, flags.to_byte());
}

#[test]
fn test_flag_byte_low_nibble_zero() {
    for bits in 0u8..16 {
        let mut flags = Flags::new();
        flags.set_zero(bits & 1 != 0);
        flags.set_subtract(bits & 2 != 0);
        flags.set_half_carry(bits & 4 != 0);
        flags.set_carry(bits & 8 != 0);
        assert_eq!(flags.to_byte() & 0x0F, 0);
    }
}

#[test]
fn test_flags_from_byte_drops_low_nibble() {
    let flags = Flags::from_byte(0xBF);
    assert_eq!(flags.to_byte(), 0xB0);
    let flags = Flags::from_byte(0x0F);
    assert_eq!(flags.to_byte(), 0x00);
}

#[test]
fn test_pair_round_trips() {
    let mut regs = Registers::new();
    regs.set_bc(0xABCD);
    assert_eq!(regs.bc(), 0xABCD);
    regs.set_de(0x1234);
    assert_eq!(regs.de(), 0x1234);
    regs.set_hl(0xFFFF);
    assert_eq!(regs.hl(), 0xFFFF);
    regs.set_af(0x12FF);
    assert_eq!(regs.af(), 0x12F0);
}

#[test]
fn test_af_low_nibble_always_zero() {
    let mut regs = Registers::new();
    for value in [0x0000u16, 0x0001, 0x00FF, 0x1234, 0xFFFF, 0xABCD] {
        regs.set_af(value);
        assert_eq!(regs.af(), value & 0xFFF0);
        assert_eq!(regs.af() & 0x000F, 0);
    }
}

#[test]
fn test_power_on_registers() {
    let regs = Registers::new();
    assert_eq!(regs.af(), 0x01B0);
    assert_eq!(regs.bc(), 0x0013);
    assert_eq!(regs.de(), 0x00D8);
    assert_eq!(regs.hl(), 0x014D);
}
