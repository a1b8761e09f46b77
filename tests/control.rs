use redox_damage::cpu::CPU;
use redox_damage::instructions::enums::JpOperands;
use redox_damage::instructions::jump::{
    call, call_with_operand, jp, jp_hl, jp_with_operand, jr, jr_with_operand, ret,
    ret_with_operand, reti, rst,
};
use redox_damage::memory::Memory;

fn program_at(pc: u16, bytes: &[u8]) -> (CPU, Memory) {
    let mut cpu = CPU::default();
    let mut memory = Memory::default();
    cpu.pc = pc;
    cpu.sp = 0xFFFE;
    for (i, b) in bytes.iter().enumerate() {
        memory.addresses[pc as usize + i] = *b;
    }
    (cpu, memory)
}

#[test]
fn conditional_jump_on_zero() {
    let (mut cpu, mut memory) = program_at(0x0150, &[0xCA, 0x34, 0x12]);
    cpu.registers.set_flag_z(true);
    jp_with_operand(&mut cpu, &mut memory, JpOperands::Z);
    assert_eq!(cpu.pc, 0x1234);
    let (mut cpu, mut memory) = program_at(0x0150, &[0xCA, 0x34, 0x12]);
    cpu.registers.set_flag_z(false);
    jp_with_operand(&mut cpu, &mut memory, JpOperands::Z);
    assert_eq!(cpu.pc, 0x0153);
    let (mut cpu, mut memory) = program_at(0x0150, &[0xC2, 0x34, 0x12]);
    jp_with_operand(&mut cpu, &mut memory, JpOperands::NZ);
    assert_eq!(cpu.pc, 0x1234);
}

#[test]
fn conditional_jumps_on_carry() {
    let (mut cpu, mut memory) = program_at(0x0200, &[0xDA, 0x00, 0x40]);
    cpu.registers.set_flag_c(true);
    jp_with_operand(&mut cpu, &mut memory, JpOperands::C);
    assert_eq!(cpu.pc, 0x4000);
    let (mut cpu, mut memory) = program_at(0x0200, &[0xD2, 0x00, 0x40]);
    cpu.registers.set_flag_c(true);
    jp_with_operand(&mut cpu, &mut memory, JpOperands::NC);
    assert_eq!(cpu.pc, 0x0203);
}

#[test]
fn unconditional_jumps() {
    let (mut cpu, memory) = program_at(0x0100, &[0xC3, 0x50, 0x01]);
    jp(&mut cpu, &memory);
    assert_eq!(cpu.pc, 0x0150);
    cpu.registers.set_hl(0x8000);
    jp_hl(&mut cpu);
    assert_eq!(cpu.pc, 0x8000);
}

#[test]
fn relative_jumps() {
    let (mut cpu, memory) = program_at(0x0100, &[0x18, 0xFE]);
    jr(&mut cpu, &memory);
    assert_eq!(cpu.pc, 0x0100);
    let (mut cpu, memory) = program_at(0x0100, &[0x18, 0x05]);
    jr(&mut cpu, &memory);
    assert_eq!(cpu.pc, 0x0107);
    let (mut cpu, mut memory) = program_at(0x0100, &[0x20, 0x80]);
    cpu.registers.set_flag_z(true);
    jr_with_operand(&mut cpu, &mut memory, JpOperands::NZ);
    assert_eq!(cpu.pc, 0x0102);
    let (mut cpu, mut memory) = program_at(0x0100, &[0x20, 0x80]);
    jr_with_operand(&mut cpu, &mut memory, JpOperands::NZ);
    assert_eq!(cpu.pc, 0x0082);
}

#[test]
fn call_and_return() {
    let (mut cpu, mut memory) = program_at(0x0123, &[0xCD, 0x00, 0x20]);
    call(&mut cpu, &mut memory);
    assert_eq!(cpu.pc, 0x2000);
    assert_eq!(cpu.sp, 0xFFFC);
    assert_eq!(memory.addresses[0xFFFD], 0x01);
    assert_eq!(memory.addresses[0xFFFC], 0x26);
    ret(&mut cpu, &memory);
    assert_eq!(cpu.pc, 0x0126);
    assert_eq!(cpu.sp, 0xFFFE);
}

#[test]
fn conditional_call_and_return() {
    let (mut cpu, mut memory) = program_at(0x0300, &[0xDC, 0x00, 0x30]);
    call_with_operand(&mut cpu, &mut memory, JpOperands::C);
    assert_eq!(cpu.pc, 0x0303);
    assert_eq!(cpu.sp, 0xFFFE);
    cpu.pc = 0x0300;
    cpu.registers.set_flag_c(true);
    call_with_operand(&mut cpu, &mut memory, JpOperands::C);
    assert_eq!(cpu.pc, 0x3000);
    ret_with_operand(&mut cpu, &memory, JpOperands::NC);
    assert_eq!(cpu.pc, 0x3001);
    ret_with_operand(&mut cpu, &memory, JpOperands::C);
    assert_eq!(cpu.pc, 0x0303);
    assert_eq!(cpu.sp, 0xFFFE);
}

#[test]
fn restart_and_return_from_interrupt() {
    let (mut cpu, mut memory) = program_at(0x0456, &[0xEF]);
    rst(&mut cpu, &mut memory, 0x28);
    assert_eq!(cpu.pc, 0x0028);
    assert_eq!(cpu.sp, 0xFFFC);
    reti(&mut cpu, &memory);
    assert_eq!(cpu.pc, 0x0457);
    assert_eq!(cpu.sp, 0xFFFE);
}
