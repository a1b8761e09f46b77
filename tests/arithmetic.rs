use redox_damage::cpu::CPU;
use redox_damage::instructions::arithmetic::{
    adc, adc_n8, add, add_hl, add_n8, add_to_hl, add_to_sp, cp, cp_n8, sbc, sbc_n8, sub, sub_hl,
};
use redox_damage::instructions::enums::InstructionSourceTarget;
use redox_damage::instructions::logical::{and, and_n8, or, or_hl, xor, xor_n8};
use redox_damage::memory::Memory;

fn flags(cpu: &CPU) -> (bool, bool, bool, bool) {
    let r = &cpu.registers;
    (r.get_flag_z(), r.get_flag_n(), r.get_flag_h(), r.get_flag_c())
}

#[test]
fn add_flags_for_all_operands() {
    for a in 0..=255u16 {
        for b in 0..=255u16 {
            let mut cpu = CPU::default();
            cpu.registers.a = a as u8;
            cpu.registers.b = b as u8;
            add(&mut cpu, InstructionSourceTarget::B);
            assert_eq!(cpu.registers.a as u16, (a + b) % 256);
            assert_eq!(cpu.registers.get_flag_c(), a + b > 255);
            assert_eq!(cpu.registers.get_flag_h(), (a & 0xF) + (b & 0xF) > 0xF);
            assert_eq!(cpu.registers.get_flag_z(), (a + b) % 256 == 0);
            assert!(!cpu.registers.get_flag_n());
            assert_eq!(cpu.pc, 1);
        }
    }
}

#[test]
fn add_exact_values() {
    let mut cpu = CPU::default();
    cpu.registers.a = 0x0F;
    cpu.registers.c = 0x01;
    add(&mut cpu, InstructionSourceTarget::C);
    assert_eq!(cpu.registers.a, 0x10);
    assert_eq!(flags(&cpu), (false, false, true, false));
    cpu.registers.a = 0xFF;
    add(&mut cpu, InstructionSourceTarget::C);
    assert_eq!(cpu.registers.a, 0x00);
    assert_eq!(flags(&cpu), (true, false, true, true));
}

#[test]
fn add_from_memory_and_immediate() {
    let mut cpu = CPU::default();
    let mut memory = Memory::default();
    cpu.registers.set_hl(0xC000);
    memory.addresses[0xC000] = 0x22;
    cpu.registers.a = 0x11;
    add_hl(&mut cpu, &memory);
    assert_eq!(cpu.registers.a, 0x33);
    assert_eq!(cpu.pc, 1);
    memory.addresses[2] = 0x01;
    add_n8(&mut cpu, &memory);
    assert_eq!(cpu.registers.a, 0x34);
    assert_eq!(cpu.pc, 3);
}

#[test]
fn adc_adds_the_carry() {
    let mut cpu = CPU::default();
    cpu.registers.a = 0x0E;
    cpu.registers.d = 0x01;
    cpu.registers.set_flag_c(true);
    adc(&mut cpu, InstructionSourceTarget::D);
    assert_eq!(cpu.registers.a, 0x10);
    assert_eq!(flags(&cpu), (false, false, true, false));
    let mut memory = Memory::default();
    cpu.pc = 0;
    cpu.registers.a = 0xFF;
    cpu.registers.set_flag_c(true);
    memory.addresses[1] = 0x00;
    adc_n8(&mut cpu, &memory);
    assert_eq!(cpu.registers.a, 0x00);
    assert_eq!(flags(&cpu), (true, false, true, true));
    assert_eq!(cpu.pc, 2);
}

#[test]
fn sub_and_compare() {
    let mut cpu = CPU::default();
    cpu.registers.a = 0x10;
    cpu.registers.e = 0x01;
    sub(&mut cpu, InstructionSourceTarget::E);
    assert_eq!(cpu.registers.a, 0x0F);
    assert_eq!(flags(&cpu), (false, true, true, false));
    cpu.registers.e = 0x10;
    sub(&mut cpu, InstructionSourceTarget::E);
    assert_eq!(cpu.registers.a, 0xFF);
    assert_eq!(flags(&cpu), (false, true, false, true));
    cp(&mut cpu, InstructionSourceTarget::A);
    assert_eq!(cpu.registers.a, 0xFF);
    assert_eq!(flags(&cpu), (true, true, false, false));
    let mut memory = Memory::default();
    cpu.pc = 0;
    memory.addresses[1] = 0xFF;
    cpu.registers.a = 0x01;
    cp_n8(&mut cpu, &memory);
    assert_eq!(cpu.registers.a, 0x01);
    assert_eq!(flags(&cpu), (false, true, true, true));
    assert_eq!(cpu.pc, 2);
}

#[test]
fn sub_from_memory() {
    let mut cpu = CPU::default();
    let mut memory = Memory::default();
    cpu.registers.set_hl(0xD000);
    memory.addresses[0xD000] = 0x05;
    cpu.registers.a = 0x05;
    sub_hl(&mut cpu, &memory);
    assert_eq!(cpu.registers.a, 0);
    assert_eq!(flags(&cpu), (true, true, false, false));
}

#[test]
fn sbc_subtracts_the_carry() {
    let mut cpu = CPU::default();
    cpu.registers.a = 0x10;
    cpu.registers.h = 0x0F;
    cpu.registers.set_flag_c(true);
    sbc(&mut cpu, InstructionSourceTarget::H);
    assert_eq!(cpu.registers.a, 0x00);
    assert_eq!(flags(&cpu), (true, true, true, false));
    cpu.registers.a = 0x42;
    cpu.registers.set_flag_c(true);
    sbc(&mut cpu, InstructionSourceTarget::A);
    assert_eq!(cpu.registers.a, 0xFF);
    assert_eq!(flags(&cpu), (false, true, true, true));
    let mut memory = Memory::default();
    cpu.pc = 0;
    cpu.registers.a = 0x00;
    cpu.registers.set_flag_c(false);
    memory.addresses[1] = 0x01;
    sbc_n8(&mut cpu, &memory);
    assert_eq!(cpu.registers.a, 0xFF);
    assert_eq!(flags(&cpu), (false, true, true, true));
}

#[test]
fn add_to_hl_sixteen_bit() {
    let mut cpu = CPU::default();
    cpu.registers.set_hl(0x0FFF);
    cpu.registers.set_bc(0x0001);
    cpu.registers.set_flag_z(true);
    add_to_hl(&mut cpu, InstructionSourceTarget::BC);
    assert_eq!(cpu.registers.get_hl(), 0x1000);
    assert_eq!(flags(&cpu), (true, false, true, false));
    cpu.sp = 0xF000;
    add_to_hl(&mut cpu, InstructionSourceTarget::SP);
    assert_eq!(cpu.registers.get_hl(), 0x0000);
    assert_eq!(flags(&cpu), (true, false, false, true));
    assert_eq!(cpu.pc, 2);
}

#[test]
fn add_signed_offset_to_sp() {
    let mut cpu = CPU::default();
    let mut memory = Memory::default();
    cpu.sp = 0x0005;
    memory.addresses[1] = 0xFE;
    add_to_sp(&mut cpu, &memory);
    assert_eq!(cpu.sp, 0x0003);
    assert_eq!(flags(&cpu), (false, false, true, true));
    assert_eq!(cpu.pc, 2);
}

#[test]
fn logical_operations() {
    let mut cpu = CPU::default();
    let mut memory = Memory::default();
    cpu.registers.a = 0b1100_1010;
    cpu.registers.b = 0b1010_0110;
    and(&mut cpu, InstructionSourceTarget::B);
    assert_eq!(cpu.registers.a, 0b1000_0010);
    assert_eq!(flags(&cpu), (false, false, true, false));
    or(&mut cpu, InstructionSourceTarget::B);
    assert_eq!(cpu.registers.a, 0b1010_0110);
    assert_eq!(flags(&cpu), (false, false, false, false));
    xor(&mut cpu, InstructionSourceTarget::A);
    assert_eq!(cpu.registers.a, 0);
    assert_eq!(flags(&cpu), (true, false, false, false));
    cpu.pc = 0;
    memory.addresses[1] = 0x0F;
    cpu.registers.a = 0xF0;
    and_n8(&mut cpu, &memory);
    assert_eq!(cpu.registers.a, 0);
    assert_eq!(flags(&cpu), (true, false, true, false));
    cpu.pc = 0;
    xor_n8(&mut cpu, &memory);
    assert_eq!(cpu.registers.a, 0x0F);
    cpu.registers.set_hl(0xC100);
    memory.addresses[0xC100] = 0x80;
    or_hl(&mut cpu, &memory);
    assert_eq!(cpu.registers.a, 0x8F);
    assert_eq!(cpu.pc, 3);
}
