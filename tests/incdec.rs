use redox_damage::cpu::CPU;
use redox_damage::instructions::decrement::{dec, dec_r8_at_hl};
use redox_damage::instructions::enums::InstructionSourceTarget;
use redox_damage::instructions::increment::{inc, inc_r8_at_hl};
use redox_damage::memory::Memory;

#[test]
fn decrement_then_increment_restores_every_value() {
    for v in 0..=255u8 {
        let mut cpu = CPU::default();
        cpu.registers.e = v;
        dec(&mut cpu, InstructionSourceTarget::E);
        inc(&mut cpu, InstructionSourceTarget::E);
        assert_eq!(cpu.registers.e, v);
        inc(&mut cpu, InstructionSourceTarget::E);
        dec(&mut cpu, InstructionSourceTarget::E);
        assert_eq!(cpu.registers.e, v);
        assert_eq!(cpu.pc, 4);
    }
}

#[test]
fn eight_bit_wraparound_and_flags() {
    let mut cpu = CPU::default();
    cpu.registers.a = 0xFF;
    cpu.registers.set_flag_c(true);
    inc(&mut cpu, InstructionSourceTarget::A);
    assert_eq!(cpu.registers.a, 0x00);
    assert!(cpu.registers.get_flag_z());
    assert!(cpu.registers.get_flag_h());
    assert!(!cpu.registers.get_flag_n());
    assert!(cpu.registers.get_flag_c());
    dec(&mut cpu, InstructionSourceTarget::A);
    assert_eq!(cpu.registers.a, 0xFF);
    assert!(!cpu.registers.get_flag_z());
    assert!(cpu.registers.get_flag_h());
    assert!(cpu.registers.get_flag_n());
    cpu.registers.b = 0x01;
    dec(&mut cpu, InstructionSourceTarget::B);
    assert_eq!(cpu.registers.b, 0);
    assert!(cpu.registers.get_flag_z());
    assert!(!cpu.registers.get_flag_h());
    cpu.registers.c = 0x0E;
    inc(&mut cpu, InstructionSourceTarget::C);
    assert_eq!(cpu.registers.c, 0x0F);
    assert!(!cpu.registers.get_flag_h());
}

#[test]
fn sixteen_bit_wraparound_keeps_flags() {
    let mut cpu = CPU::default();
    cpu.registers.set_bc(0xFFFF);
    inc(&mut cpu, InstructionSourceTarget::BC);
    assert_eq!(cpu.registers.get_bc(), 0x0000);
    assert!(!cpu.registers.get_flag_z());
    cpu.sp = 0;
    dec(&mut cpu, InstructionSourceTarget::SP);
    assert_eq!(cpu.sp, 0xFFFF);
    cpu.registers.set_de(0x00FF);
    inc(&mut cpu, InstructionSourceTarget::DE);
    assert_eq!(cpu.registers.get_de(), 0x0100);
    cpu.registers.set_hl(0x0100);
    dec(&mut cpu, InstructionSourceTarget::HL);
    assert_eq!(cpu.registers.get_hl(), 0x00FF);
    assert_eq!(cpu.pc, 4);
}

#[test]
fn increment_and_decrement_at_hl() {
    let mut cpu = CPU::default();
    let mut memory = Memory::default();
    cpu.registers.set_hl(0xC123);
    memory.addresses[0xC123] = 0xFF;
    inc_r8_at_hl(&mut cpu, &mut memory);
    assert_eq!(memory.addresses[0xC123], 0x00);
    assert!(cpu.registers.get_flag_z());
    assert_eq!(cpu.pc, 1);
    dec_r8_at_hl(&mut cpu, &mut memory);
    assert_eq!(memory.addresses[0xC123], 0xFF);
    assert!(cpu.registers.get_flag_n());
    assert_eq!(cpu.pc, 2);
}
