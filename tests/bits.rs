use redox_damage::cpu::CPU;
use redox_damage::instructions::bit::{
    bit, res, rl, rl_hl, rla, rlc, rlc_hl, rlca, rr, rr_hl, rra, rrc, rrc_hl, rrca, sla,
    sla_hl, sra, sra_hl, srl, srl_hl, swap, swap_hl,
};
use redox_damage::instructions::enums::InstructionSourceTarget;
use redox_damage::memory::Memory;

fn flags(cpu: &CPU) -> (bool, bool, bool, bool) {
    let r = &cpu.registers;
    (r.get_flag_z(), r.get_flag_n(), r.get_flag_h(), r.get_flag_c())
}

#[test]
fn bit_test_reads_one_bit() {
    let mut cpu = CPU::default();
    let memory = Memory::default();
    cpu.registers.b = 0b0000_1000;
    cpu.registers.set_flag_c(true);
    bit(&mut cpu, &memory, InstructionSourceTarget::B, 3);
    assert!(!cpu.registers.get_flag_z());
    assert_eq!(cpu.registers.b, 0b0000_1000);
    assert_eq!(flags(&cpu), (false, false, true, true));
    cpu.registers.b = 0b0000_0000;
    bit(&mut cpu, &memory, InstructionSourceTarget::B, 3);
    assert!(cpu.registers.get_flag_z());
    assert_eq!(cpu.registers.b, 0);
    assert_eq!(cpu.pc, 4);
}

#[test]
fn bit_test_on_memory() {
    let mut cpu = CPU::default();
    let mut memory = Memory::default();
    cpu.registers.set_hl(0xC000);
    memory.addresses[0xC000] = 0x80;
    bit(&mut cpu, &memory, InstructionSourceTarget::HlAsPointer, 7);
    assert!(!cpu.registers.get_flag_z());
    bit(&mut cpu, &memory, InstructionSourceTarget::HlAsPointer, 6);
    assert!(cpu.registers.get_flag_z());
}

#[test]
fn reset_and_set_one_bit() {
    let mut cpu = CPU::default();
    let mut memory = Memory::default();
    cpu.registers.c = 0xFF;
    cpu.registers.set_flag_z(true);
    res(&mut cpu, &mut memory, InstructionSourceTarget::C, 0);
    assert_eq!(cpu.registers.c, 0xFE);
    redox_damage::instructions::bit::set(&mut cpu, &mut memory, InstructionSourceTarget::C, 0);
    assert_eq!(cpu.registers.c, 0xFF);
    assert_eq!(flags(&cpu), (true, false, false, false));
    cpu.registers.set_hl(0xC010);
    redox_damage::instructions::bit::set(&mut cpu, &mut memory, InstructionSourceTarget::HlAsPointer, 7);
    assert_eq!(memory.addresses[0xC010], 0x80);
    res(&mut cpu, &mut memory, InstructionSourceTarget::HlAsPointer, 7);
    assert_eq!(memory.addresses[0xC010], 0x00);
    assert_eq!(cpu.pc, 8);
}

#[test]
fn rotations() {
    let mut cpu = CPU::default();
    cpu.registers.a = 0b1000_0001;
    rlc(&mut cpu, InstructionSourceTarget::A);
    assert_eq!(cpu.registers.a, 0b0000_0011);
    assert_eq!(flags(&cpu), (false, false, false, true));
    rrc(&mut cpu, InstructionSourceTarget::A);
    assert_eq!(cpu.registers.a, 0b1000_0001);
    assert!(cpu.registers.get_flag_c());
    cpu.registers.d = 0b1000_0000;
    cpu.registers.set_flag_c(false);
    rl(&mut cpu, InstructionSourceTarget::D);
    assert_eq!(cpu.registers.d, 0);
    assert_eq!(flags(&cpu), (true, false, false, true));
    rl(&mut cpu, InstructionSourceTarget::D);
    assert_eq!(cpu.registers.d, 1);
    assert!(!cpu.registers.get_flag_c());
    cpu.registers.e = 0b0000_0001;
    cpu.registers.set_flag_c(true);
    rr(&mut cpu, InstructionSourceTarget::E);
    assert_eq!(cpu.registers.e, 0b1000_0000);
    assert!(cpu.registers.get_flag_c());
    assert_eq!(cpu.pc, 10);
}

#[test]
fn shifts_and_swap() {
    let mut cpu = CPU::default();
    cpu.registers.h = 0b1100_0001;
    sla(&mut cpu, InstructionSourceTarget::H);
    assert_eq!(cpu.registers.h, 0b1000_0010);
    assert!(cpu.registers.get_flag_c());
    sra(&mut cpu, InstructionSourceTarget::H);
    assert_eq!(cpu.registers.h, 0b1100_0001);
    assert!(!cpu.registers.get_flag_c());
    srl(&mut cpu, InstructionSourceTarget::H);
    assert_eq!(cpu.registers.h, 0b0110_0000);
    assert!(cpu.registers.get_flag_c());
    cpu.registers.l = 0xA5;
    swap(&mut cpu, InstructionSourceTarget::L);
    assert_eq!(cpu.registers.l, 0x5A);
    assert_eq!(flags(&cpu), (false, false, false, false));
    cpu.registers.l = 0;
    swap(&mut cpu, InstructionSourceTarget::L);
    assert!(cpu.registers.get_flag_z());
}

#[test]
fn rotations_and_shifts_in_memory() {
    let mut cpu = CPU::default();
    let mut memory = Memory::default();
    cpu.registers.set_hl(0xC200);
    memory.addresses[0xC200] = 0x81;
    rlc_hl(&mut cpu, &mut memory);
    assert_eq!(memory.addresses[0xC200], 0x03);
    rrc_hl(&mut cpu, &mut memory);
    assert_eq!(memory.addresses[0xC200], 0x81);
    cpu.registers.set_flag_c(false);
    rl_hl(&mut cpu, &mut memory);
    assert_eq!(memory.addresses[0xC200], 0x02);
    assert!(cpu.registers.get_flag_c());
    rr_hl(&mut cpu, &mut memory);
    assert_eq!(memory.addresses[0xC200], 0x81);
    sla_hl(&mut cpu, &mut memory);
    assert_eq!(memory.addresses[0xC200], 0x02);
    memory.addresses[0xC200] = 0x81;
    sra_hl(&mut cpu, &mut memory);
    assert_eq!(memory.addresses[0xC200], 0xC0);
    srl_hl(&mut cpu, &mut memory);
    assert_eq!(memory.addresses[0xC200], 0x60);
    swap_hl(&mut cpu, &mut memory);
    assert_eq!(memory.addresses[0xC200], 0x06);
    assert_eq!(cpu.pc, 16);
}

#[test]
fn accumulator_rotations_clear_zero() {
    let mut cpu = CPU::default();
    cpu.registers.a = 0;
    cpu.registers.set_flag_z(true);
    rlca(&mut cpu);
    assert_eq!(cpu.registers.a, 0);
    assert!(!cpu.registers.get_flag_z());
    cpu.registers.a = 0x01;
    rrca(&mut cpu);
    assert_eq!(cpu.registers.a, 0x80);
    assert!(cpu.registers.get_flag_c());
    rla(&mut cpu);
    assert_eq!(cpu.registers.a, 0x01);
    assert!(cpu.registers.get_flag_c());
    rra(&mut cpu);
    assert_eq!(cpu.registers.a, 0x80);
    assert!(cpu.registers.get_flag_c());
    assert_eq!(cpu.pc, 4);
}
