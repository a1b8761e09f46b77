use redox_damage::cpu::CPU;
use redox_damage::instruction_mapper::execute_instruction;
use redox_damage::memory::Memory;

#[test]
fn three_instruction_program() {
    let mut cpu = CPU::default();
    let mut memory = Memory::default();
    cpu.pc = 0x0100;
    cpu.sp = 0xFFFE;
    memory.addresses[0x0100] = 0x3E;
    memory.addresses[0x0101] = 5;
    memory.addresses[0x0102] = 0x06;
    memory.addresses[0x0103] = 10;
    memory.addresses[0x0104] = 0x80;
    assert!(execute_instruction(&mut cpu, &mut memory));
    assert!(execute_instruction(&mut cpu, &mut memory));
    assert!(execute_instruction(&mut cpu, &mut memory));
    assert_eq!(cpu.registers.a, 15);
    assert_eq!(cpu.pc, 0x0105);
    assert!(!cpu.registers.get_flag_z());
    assert!(!cpu.registers.get_flag_c());
}

use redox_damage::instructions::misc::{ccf, cpl, daa, di, ei, halt, nop, scf, stop};

#[test]
fn secondary_table_through_dispatch() {
    let mut cpu = CPU::default();
    let mut memory = Memory::default();
    cpu.registers.b = 0b0000_1000;
    memory.addresses[0] = 0xCB;
    memory.addresses[1] = 0x58;
    assert!(execute_instruction(&mut cpu, &mut memory));
    assert!(!cpu.registers.get_flag_z());
    assert_eq!(cpu.pc, 2);
    memory.addresses[2] = 0xCB;
    memory.addresses[3] = 0x37;
    cpu.registers.a = 0x12;
    assert!(execute_instruction(&mut cpu, &mut memory));
    assert_eq!(cpu.registers.a, 0x21);
    memory.addresses[4] = 0xCB;
    memory.addresses[5] = 0xFE;
    cpu.registers.set_hl(0xC000);
    assert!(execute_instruction(&mut cpu, &mut memory));
    assert_eq!(memory.addresses[0xC000], 0x80);
    assert_eq!(cpu.pc, 6);
}

#[test]
fn unused_opcode_changes_nothing() {
    let mut cpu = CPU::default();
    let mut memory = Memory::default();
    cpu.pc = 0x0200;
    memory.addresses[0x0200] = 0xD3;
    assert!(!execute_instruction(&mut cpu, &mut memory));
    assert_eq!(cpu.pc, 0x0200);
}

#[test]
fn call_and_return_through_dispatch() {
    let mut cpu = CPU::default();
    let mut memory = Memory::default();
    cpu.pc = 0x0100;
    cpu.sp = 0xFFFE;
    memory.addresses[0x0100] = 0xCD;
    memory.addresses[0x0101] = 0x00;
    memory.addresses[0x0102] = 0x02;
    memory.addresses[0x0200] = 0x3C;
    memory.addresses[0x0201] = 0xC9;
    for _ in 0..3 {
        assert!(execute_instruction(&mut cpu, &mut memory));
    }
    assert_eq!(cpu.registers.a, 1);
    assert_eq!(cpu.pc, 0x0103);
    assert_eq!(cpu.sp, 0xFFFE);
}

#[test]
fn decimal_adjust() {
    let mut cpu = CPU::default();
    cpu.registers.a = 0x15;
    cpu.registers.b = 0x27;
    redox_damage::instructions::arithmetic::add(
        &mut cpu,
        redox_damage::instructions::enums::InstructionSourceTarget::B,
    );
    daa(&mut cpu);
    assert_eq!(cpu.registers.a, 0x42);
    assert!(!cpu.registers.get_flag_c());
    cpu.registers.a = 0x99;
    cpu.registers.b = 0x01;
    redox_damage::instructions::arithmetic::add(
        &mut cpu,
        redox_damage::instructions::enums::InstructionSourceTarget::B,
    );
    daa(&mut cpu);
    assert_eq!(cpu.registers.a, 0x00);
    assert!(cpu.registers.get_flag_z());
    assert!(cpu.registers.get_flag_c());
    cpu.registers.a = 0x42;
    cpu.registers.b = 0x15;
    redox_damage::instructions::arithmetic::sub(
        &mut cpu,
        redox_damage::instructions::enums::InstructionSourceTarget::B,
    );
    daa(&mut cpu);
    assert_eq!(cpu.registers.a, 0x27);
}

#[test]
fn flag_and_misc_instructions() {
    let mut cpu = CPU::default();
    let memory = Memory::default();
    cpu.registers.a = 0x0F;
    cpl(&mut cpu);
    assert_eq!(cpu.registers.a, 0xF0);
    scf(&mut cpu);
    assert!(cpu.registers.get_flag_c());
    ccf(&mut cpu);
    assert!(!cpu.registers.get_flag_c());
    ccf(&mut cpu);
    assert!(cpu.registers.get_flag_c());
    assert!(!cpu.registers.get_flag_n() && !cpu.registers.get_flag_h());
    nop(&mut cpu);
    halt(&mut cpu);
    di(&mut cpu);
    ei(&mut cpu);
    assert_eq!(cpu.pc, 8);
    stop(&mut cpu, &memory);
    assert_eq!(cpu.pc, 10);
    assert_eq!(cpu.registers.a, 0xF0);
}

#[test]
fn program_counter_wraps_at_top() {
    let mut cpu = CPU::default();
    let mut memory = Memory::default();
    cpu.pc = 0xFFFF;
    assert!(execute_instruction(&mut cpu, &mut memory));
    assert_eq!(cpu.pc, 0x0000);
}
