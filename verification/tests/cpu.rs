use gbcore::bus::Bus;
use gbcore::cartridge::Cartridge;
use gbcore::cpu::CPU;
use gbcore::cpu::CpuError;
use gbcore::opcode::Opcode;
use gbcore::opcode::bits::rlc;
use gbcore::opcode::bits::rrc;
use gbcore::opcode::targets::Condition;
use gbcore::opcode::targets::Target;
use gbcore::opcode::targets::Target16;

fn fresh_cpu() -> CPU {
    let mut rom = vec![0u8; 0x8000];
    rom[0x0147] = 0x01;
    rom[0x0149] = 0x02;
    CPU::new(Bus::new(Cartridge::new(rom).unwrap()))
}

/// A processor about to run the given code from work RAM.
fn cpu_with_program(code: &[u8]) -> CPU {
    let mut cpu = fresh_cpu();
    for (i, byte) in code.iter().enumerate() {
        cpu.bus.write(0xC000 + i as u16, *byte);
    }
    cpu.pc = 0xC000;
    cpu
}

#[test]
fn test_daa_after_addition() {
    // ADD A,B then DAA: 0x45 + 0x38 adjusts to the decimal sum 0x83.
    let mut cpu = cpu_with_program(&[0x80, 0x27]);
    cpu.registers.a = 0x45;
    cpu.registers.b = 0x38;
    cpu.registers.f = gbcore::registers::Flags::new();
    cpu.execute_next_instruction().unwrap();
    assert_eq!(cpu.registers.a, 0x7D);
    cpu.execute_next_instruction().unwrap();
    assert_eq!(cpu.registers.a, 0x83);
    assert_eq!(cpu.registers.f.to_byte(), 0x00);
}

#[test]
fn test_daa_after_subtraction_with_borrow() {
    // SUB A,B then DAA: 0x05 - 0x21 borrows, and the adjust keeps N and C.
    let mut cpu = cpu_with_program(&[0x90, 0x27]);
    cpu.registers.a = 0x05;
    cpu.registers.b = 0x21;
    cpu.registers.f = gbcore::registers::Flags::new();
    cpu.execute_next_instruction().unwrap();
    assert_eq!(cpu.registers.a, 0xE4);
    assert_eq!(cpu.registers.f.zero(), false);
    assert_eq!(cpu.registers.f.subtract(), true);
    assert_eq!(cpu.registers.f.half_carry(), false);
    assert_eq!(cpu.registers.f.carry(), true);
    cpu.execute_next_instruction().unwrap();
    assert_eq!(cpu.registers.a, 0x84);
    assert_eq!(cpu.registers.f.zero(), false);
    assert_eq!(cpu.registers.f.subtract(), true);
    assert_eq!(cpu.registers.f.half_carry(), false);
    assert_eq!(cpu.registers.f.carry(), true);
}

#[test]
fn test_half_carry_edge() {
    // INC A at 0x0F carries out of the low nibble; C is untouched.
    let mut cpu = cpu_with_program(&[0x3C]);
    cpu.registers.a = 0x0F;
    cpu.registers.f.set_carry(true);
    cpu.execute_next_instruction().unwrap();
    assert_eq!(cpu.registers.a, 0x10);
    assert_eq!(cpu.registers.f.zero(), false);
    assert_eq!(cpu.registers.f.subtract(), false);
    assert_eq!(cpu.registers.f.half_carry(), true);
    assert_eq!(cpu.registers.f.carry(), true);
}

#[test]
fn test_pop_af_masks_low_nibble() {
    // POP AF at SP 0xFFFC: the flag byte 0xFF comes back as 0xF0.
    let mut cpu = cpu_with_program(&[0xF1]);
    cpu.sp = 0xFFFC;
    cpu.bus.write(0xFFFC, 0xFF);
    cpu.bus.write(0xFFFD, 0x12);
    cpu.execute_next_instruction().unwrap();
    assert_eq!(cpu.registers.af(), 0x12F0);
    assert_eq!(cpu.sp, 0xFFFE);
}

#[test]
fn test_relative_jump_backward() {
    // JR -2 at 0x0100: the two fetched bytes cancel the offset exactly.
    let mut rom = vec![0u8; 0x8000];
    rom[0x0100] = 0x18;
    rom[0x0101] = 0xFE;
    let mut cpu = CPU::new(Bus::new(Cartridge::new(rom).unwrap()));
    assert_eq!(cpu.pc, 0x0100);
    let cycles = cpu.execute_next_instruction().unwrap();
    assert_eq!(cpu.pc, 0x0100);
    assert_eq!(cycles, 12);
}

#[test]
fn test_interrupt_dispatch() {
    // VBlank and Timer both pending: VBlank wins, its bit clears, PC is
    // pushed and the fixed vector 0x0040 takes over.
    let mut cpu = fresh_cpu();
    cpu.ime = true;
    cpu.bus.write(0xFFFF, 0x05);
    cpu.bus.write(0xFF0F, 0x05);
    cpu.sp = 0xFFFE;
    cpu.pc = 0x1234;
    let cycles = cpu.execute_next_instruction().unwrap();
    assert_eq!(cycles, 20);
    assert_eq!(cpu.sp, 0xFFFC);
    assert_eq!(cpu.bus.read(0xFFFC), 0x34);
    assert_eq!(cpu.bus.read(0xFFFD), 0x12);
    assert_eq!(cpu.pc, 0x0040);
    assert_eq!(cpu.ime, false);
    assert_eq!(cpu.bus.read(0xFF0F), 0x04);
}

#[test]
fn test_serial_output_capture() {
    // LD A,0x48; LDH (0x01),A; LD A,0x81; LDH (0x02),A
    let mut cpu = cpu_with_program(&[0x3E, 0x48, 0xE0, 0x01, 0x3E, 0x81, 0xE0, 0x02]);
    for _ in 0..4 {
        cpu.execute_next_instruction().unwrap();
    }
    assert_eq!(cpu.bus.serial_output().as_slice(), &[0x48]);
}

#[test]
fn test_ei_delay_and_di_immediacy() {
    // EI; NOP; NOP: IME rises only after the instruction following EI.
    let mut cpu = cpu_with_program(&[0xFB, 0x00, 0x00, 0xF3]);
    cpu.execute_next_instruction().unwrap();
    assert_eq!(cpu.ime, false);
    cpu.execute_next_instruction().unwrap();
    assert_eq!(cpu.ime, false);
    cpu.execute_next_instruction().unwrap();
    assert_eq!(cpu.ime, true);
    // DI clears it at once.
    cpu.execute_next_instruction().unwrap();
    assert_eq!(cpu.ime, false);
}

#[test]
fn test_halt_wakes_on_pending_interrupt() {
    let mut cpu = cpu_with_program(&[0x76, 0x00]);
    cpu.execute_next_instruction().unwrap();
    assert!(cpu.halted);
    // With nothing pending the processor idles.
    let cycles = cpu.execute_next_instruction().unwrap();
    assert_eq!(cycles, 4);
    assert!(cpu.halted);
    // A pending interrupt clears HALT even with IME off.
    cpu.bus.write(0xFFFF, 0x01);
    cpu.bus.write(0xFF0F, 0x01);
    cpu.execute_next_instruction().unwrap();
    assert!(!cpu.halted);
    assert_eq!(cpu.ime, false);
}

#[test]
fn test_invalid_opcode_fault() {
    let mut cpu = cpu_with_program(&[0xD3]);
    let result = cpu.execute_next_instruction();
    assert_eq!(result, Err(CpuError::InvalidOpcode { pc: 0xC000, byte: 0xD3 }));
}

#[test]
fn test_stop_fatal_and_noop() {
    let mut cpu = cpu_with_program(&[0x10]);
    let result = cpu.execute_next_instruction();
    assert_eq!(result, Err(CpuError::Stop { pc: 0xC000 }));

    let mut cpu = cpu_with_program(&[0x10]);
    cpu.stop_as_noop = true;
    assert_eq!(cpu.execute_next_instruction(), Ok(4));
}

#[test]
fn test_rlc_matches_rotate_left() {
    // Applying RLC k times equals rotating the byte left by k, and eight
    // applications restore it; likewise RRC to the right.
    for byte in [0b1011_0100u8, 0x01, 0x80, 0xFF, 0x00, 0x5A] {
        let mut cpu = fresh_cpu();
        cpu.registers.b = byte;
        for k in 1..=8u32 {
            rlc(&mut cpu, Target::B, true);
            assert_eq!(cpu.registers.b, byte.rotate_left(k));
        }
        assert_eq!(cpu.registers.b, byte);
        let mut cpu = fresh_cpu();
        cpu.registers.c = byte;
        for k in 1..=8u32 {
            rrc(&mut cpu, Target::C, true);
            assert_eq!(cpu.registers.c, byte.rotate_right(k));
        }
        assert_eq!(cpu.registers.c, byte);
    }
}

#[test]
fn test_stack_round_trip() {
    // PUSH BC; POP DE: the word crosses the stack unchanged.
    let mut cpu = cpu_with_program(&[0xC5, 0xD1]);
    cpu.sp = 0xDFFE;
    cpu.registers.set_bc(0xABCD);
    cpu.execute_next_instruction().unwrap();
    assert_eq!(cpu.sp, 0xDFFC);
    cpu.execute_next_instruction().unwrap();
    assert_eq!(cpu.sp, 0xDFFE);
    assert_eq!(cpu.registers.de(), 0xABCD);
}

#[test]
fn test_add_sub_round_trip() {
    // ADD A,C then SUB A,C restores A for a sweep of pairs.
    for (a, v) in [(0x00u8, 0x00u8), (0x45, 0x38), (0xFF, 0x01), (0x80, 0x80), (0x0F, 0xF1)] {
        let mut cpu = cpu_with_program(&[0x81, 0x91]);
        cpu.registers.a = a;
        cpu.registers.c = v;
        cpu.execute_next_instruction().unwrap();
        let wide = a as u16 + v as u16;
        assert_eq!(cpu.registers.f.carry(), wide > 0xFF);
        cpu.execute_next_instruction().unwrap();
        assert_eq!(cpu.registers.a, a);
    }
}

#[test]
fn test_add_sp_signed() {
    // ADD SP,-1 wraps the stack pointer down and sets H and C from the
    // unsigned low-byte sums.
    let mut cpu = cpu_with_program(&[0xE8, 0xFF]);
    cpu.sp = 0x0000;
    cpu.execute_next_instruction().unwrap();
    assert_eq!(cpu.sp, 0xFFFF);
    assert_eq!(cpu.registers.f.zero(), false);
    assert_eq!(cpu.registers.f.subtract(), false);
    assert_eq!(cpu.registers.f.half_carry(), false);
    assert_eq!(cpu.registers.f.carry(), false);

    // LD HL,SP+1 with a low-nibble carry.
    let mut cpu = cpu_with_program(&[0xF8, 0x01]);
    cpu.sp = 0x00FF;
    cpu.execute_next_instruction().unwrap();
    assert_eq!(cpu.registers.hl(), 0x0100);
    assert_eq!(cpu.registers.f.half_carry(), true);
    assert_eq!(cpu.registers.f.carry(), true);
}

#[test]
fn test_conditional_cycles() {
    // JR NZ taken costs 12, not taken 8.
    let mut cpu = cpu_with_program(&[0x20, 0x02, 0x20, 0x02]);
    cpu.registers.f.set_zero(false);
    assert_eq!(cpu.execute_next_instruction(), Ok(12));
    cpu.pc = 0xC002;
    cpu.registers.f.set_zero(true);
    assert_eq!(cpu.execute_next_instruction(), Ok(8));
}

#[test]
fn test_call_and_ret() {
    // CALL 0xC010 pushes the return address; RET pops it back.
    let mut cpu = cpu_with_program(&[0xCD, 0x10, 0xC0]);
    cpu.bus.write(0xC010, 0xC9);
    cpu.sp = 0xDFFE;
    assert_eq!(cpu.execute_next_instruction(), Ok(24));
    assert_eq!(cpu.pc, 0xC010);
    assert_eq!(cpu.sp, 0xDFFC);
    assert_eq!(cpu.execute_next_instruction(), Ok(16));
    assert_eq!(cpu.pc, 0xC003);
    assert_eq!(cpu.sp, 0xDFFE);
}

#[test]
fn test_cb_swap_and_bit() {
    // SWAP B exchanges nibbles; BIT 7,B tests the high bit.
    let mut cpu = cpu_with_program(&[0xCB, 0x30, 0xCB, 0x78]);
    cpu.registers.b = 0xA5;
    assert_eq!(cpu.execute_next_instruction(), Ok(8));
    assert_eq!(cpu.registers.b, 0x5A);
    assert_eq!(cpu.execute_next_instruction(), Ok(8));
    assert_eq!(cpu.registers.f.zero(), true);
    assert_eq!(cpu.registers.f.half_carry(), true);
}

#[test]
fn test_ld_through_memory() {
    // LD (HL),A then LD C,(HL) moves a byte through work RAM.
    let mut cpu = cpu_with_program(&[0x77, 0x4E]);
    cpu.registers.a = 0x5C;
    cpu.registers.set_hl(0xD000);
    assert_eq!(cpu.execute_next_instruction(), Ok(8));
    assert_eq!(cpu.bus.read(0xD000), 0x5C);
    assert_eq!(cpu.execute_next_instruction(), Ok(8));
    assert_eq!(cpu.registers.c, 0x5C);
}

#[test]
fn test_ldi_ldd_move_hl() {
    // LDI (HL),A then LDD (HL),A: HL steps up, then back down.
    let mut cpu = cpu_with_program(&[0x22, 0x32]);
    cpu.registers.a = 0x99;
    cpu.registers.set_hl(0xD100);
    cpu.execute_next_instruction().unwrap();
    assert_eq!(cpu.registers.hl(), 0xD101);
    cpu.execute_next_instruction().unwrap();
    assert_eq!(cpu.registers.hl(), 0xD100);
    assert_eq!(cpu.bus.read(0xD100), 0x99);
    assert_eq!(cpu.bus.read(0xD101), 0x99);
}

#[test]
fn test_decode_table() {
    assert_eq!(Opcode::from_byte(0x00), Opcode::NOP);
    assert_eq!(Opcode::from_byte(0x76), Opcode::HALT);
    assert_eq!(Opcode::from_byte(0x80), Opcode::ADD(Target::B));
    assert_eq!(Opcode::from_byte(0x36), Opcode::LD(Target::MHL, Target::Immediate));
    assert_eq!(Opcode::from_byte(0xC3), Opcode::JP(Condition::Always, Target16::Immediate));
    assert_eq!(Opcode::from_byte(0xD9), Opcode::RETI);
    assert_eq!(Opcode::from_byte(0x27), Opcode::DAA);
    // The eleven reserved slots decode to faults carrying their byte.
    for byte in [0xD3u8, 0xDB, 0xDD, 0xE3, 0xE4, 0xEB, 0xEC, 0xED, 0xF4, 0xFC, 0xFD] {
        assert_eq!(Opcode::from_byte(byte), Opcode::Undefined(byte));
    }
}

#[test]
fn test_operand_spelling() {
    let cpu = cpu_with_program(&[0xAB, 0xCD]);
    assert_eq!(Target::A.debug_fmt(&cpu), "A");
    assert_eq!(Target::MHL.debug_fmt(&cpu), "(HL)");
    assert_eq!(Target::MC.debug_fmt(&cpu), "(FF00 + C)");
    assert_eq!(Target::Immediate.debug_fmt(&cpu), "AB");
    assert_eq!(Target::ZeroImmediate.debug_fmt(&cpu), "[AB]");
    assert_eq!(Target::MImmediate.debug_fmt(&cpu), "[CDAB]");
    assert_eq!(Target16::Immediate.debug_fmt(&cpu), "CDAB");
    assert_eq!(Target16::SP.debug_fmt(&cpu), "SP");
}
