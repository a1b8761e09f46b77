use redox_damage::cpu::CPU;
use redox_damage::instructions::enums::InstructionSourceTarget;
use redox_damage::instructions::load::{
    ld_a16_to_a, ld_a_to_a16, ld_a_to_pointer, ld_hl_to_sp, ld_n16, ld_n8, ld_pointer_to_a,
    ld_r8_r8, ld_sp_and_e8_to_hl, ld_sp_to_n16, ldh_a8_to_a, ldh_a_to_a8, pop, push,
};
use redox_damage::memory::Memory;

#[test]
fn push_then_pop_restores_pair_and_stack_pointer() {
    let mut cpu = CPU::default();
    let mut memory = Memory::default();
    cpu.sp = 0xFFFE;
    cpu.registers.set_bc(0xBEEF);
    push(&mut cpu, &mut memory, InstructionSourceTarget::BC);
    assert_eq!(cpu.sp, 0xFFFC);
    assert_eq!(memory.addresses[0xFFFD], 0xBE);
    assert_eq!(memory.addresses[0xFFFC], 0xEF);
    cpu.registers.set_bc(0);
    pop(&mut cpu, &memory, InstructionSourceTarget::BC);
    assert_eq!(cpu.registers.get_bc(), 0xBEEF);
    assert_eq!(cpu.sp, 0xFFFE);
    assert_eq!(cpu.pc, 2);
}

#[test]
fn push_pop_moves_pairs_and_flags() {
    let mut cpu = CPU::default();
    let mut memory = Memory::default();
    cpu.sp = 0xD000;
    cpu.registers.set_af(0x12B0);
    push(&mut cpu, &mut memory, InstructionSourceTarget::AF);
    cpu.registers.set_hl(0x5678);
    push(&mut cpu, &mut memory, InstructionSourceTarget::HL);
    pop(&mut cpu, &memory, InstructionSourceTarget::DE);
    assert_eq!(cpu.registers.get_de(), 0x5678);
    cpu.registers.set_af(0);
    pop(&mut cpu, &memory, InstructionSourceTarget::AF);
    assert_eq!(cpu.registers.get_af(), 0x12B0);
    assert!(cpu.registers.get_flag_z() && cpu.registers.get_flag_h() && cpu.registers.get_flag_c());
    assert_eq!(cpu.sp, 0xD000);
}

#[test]
fn pop_masks_low_nibble_of_flags() {
    let mut cpu = CPU::default();
    let mut memory = Memory::default();
    cpu.sp = 0xC000;
    memory.addresses[0xC000] = 0xFF;
    memory.addresses[0xC001] = 0x01;
    pop(&mut cpu, &memory, InstructionSourceTarget::AF);
    assert_eq!(cpu.registers.get_af(), 0x01F0);
}

#[test]
fn register_and_memory_copies() {
    let mut cpu = CPU::default();
    let mut memory = Memory::default();
    cpu.registers.d = 0x42;
    ld_r8_r8(&mut cpu, &mut memory, InstructionSourceTarget::A, InstructionSourceTarget::D);
    assert_eq!(cpu.registers.a, 0x42);
    cpu.registers.set_hl(0xC050);
    ld_r8_r8(&mut cpu, &mut memory, InstructionSourceTarget::HlAsPointer, InstructionSourceTarget::A);
    assert_eq!(memory.addresses[0xC050], 0x42);
    ld_r8_r8(&mut cpu, &mut memory, InstructionSourceTarget::E, InstructionSourceTarget::HlAsPointer);
    assert_eq!(cpu.registers.e, 0x42);
    assert_eq!(cpu.pc, 3);
}

#[test]
fn immediate_loads() {
    let mut cpu = CPU::default();
    let mut memory = Memory::default();
    memory.addresses[1] = 0x34;
    memory.addresses[2] = 0x12;
    ld_n16(&mut cpu, &mut memory, InstructionSourceTarget::DE);
    assert_eq!(cpu.registers.get_de(), 0x1234);
    assert_eq!(cpu.pc, 3);
    memory.addresses[4] = 0x99;
    ld_n8(&mut cpu, &mut memory, InstructionSourceTarget::L);
    assert_eq!(cpu.registers.l, 0x99);
    assert_eq!(cpu.pc, 5);
    cpu.pc = 0;
    ld_n16(&mut cpu, &mut memory, InstructionSourceTarget::SP);
    assert_eq!(cpu.sp, 0x1234);
    cpu.registers.set_hl(0xC000);
    memory.addresses[4] = 0x77;
    ld_n8(&mut cpu, &mut memory, InstructionSourceTarget::HlAsPointer);
    assert_eq!(memory.addresses[0xC000], 0x77);
}

#[test]
fn indirect_accumulator_access() {
    let mut cpu = CPU::default();
    let mut memory = Memory::default();
    cpu.registers.a = 0x5A;
    cpu.registers.set_hl(0xC000);
    ld_a_to_pointer(&mut cpu, &mut memory, InstructionSourceTarget::HlPlus);
    assert_eq!(memory.addresses[0xC000], 0x5A);
    assert_eq!(cpu.registers.get_hl(), 0xC001);
    ld_a_to_pointer(&mut cpu, &mut memory, InstructionSourceTarget::HlMinus);
    assert_eq!(memory.addresses[0xC001], 0x5A);
    assert_eq!(cpu.registers.get_hl(), 0xC000);
    memory.addresses[0xC000] = 0x11;
    ld_pointer_to_a(&mut cpu, &memory, InstructionSourceTarget::HlMinus);
    assert_eq!(cpu.registers.a, 0x11);
    assert_eq!(cpu.registers.get_hl(), 0xBFFF);
    ld_pointer_to_a(&mut cpu, &memory, InstructionSourceTarget::HlPlus);
    assert_eq!(cpu.registers.get_hl(), 0xC000);
    cpu.registers.set_bc(0xC000);
    ld_pointer_to_a(&mut cpu, &memory, InstructionSourceTarget::BcAsPointer);
    assert_eq!(cpu.registers.a, 0x11);
    cpu.registers.set_de(0xD000);
    ld_a_to_pointer(&mut cpu, &mut memory, InstructionSourceTarget::DeAsPointer);
    assert_eq!(memory.addresses[0xD000], 0x11);
    cpu.registers.c = 0x44;
    ld_a_to_pointer(&mut cpu, &mut memory, InstructionSourceTarget::CAsPointer);
    assert_eq!(memory.addresses[0xFF44], 0x11);
    assert_eq!(cpu.pc, 7);
}

#[test]
fn hl_wraps_around_address_space() {
    let mut cpu = CPU::default();
    let mut memory = Memory::default();
    cpu.registers.set_hl(0xFFFF);
    ld_a_to_pointer(&mut cpu, &mut memory, InstructionSourceTarget::HlPlus);
    assert_eq!(cpu.registers.get_hl(), 0x0000);
    ld_a_to_pointer(&mut cpu, &mut memory, InstructionSourceTarget::HlMinus);
    assert_eq!(cpu.registers.get_hl(), 0xFFFF);
}

#[test]
fn absolute_and_zero_page_access() {
    let mut cpu = CPU::default();
    let mut memory = Memory::default();
    memory.addresses[1] = 0x00;
    memory.addresses[2] = 0xC1;
    cpu.registers.a = 0x3C;
    ld_a_to_a16(&mut cpu, &mut memory);
    assert_eq!(memory.addresses[0xC100], 0x3C);
    cpu.pc = 0;
    cpu.registers.a = 0;
    ld_a16_to_a(&mut cpu, &memory);
    assert_eq!(cpu.registers.a, 0x3C);
    assert_eq!(cpu.pc, 3);
    memory.addresses[4] = 0x80;
    ldh_a_to_a8(&mut cpu, &mut memory);
    assert_eq!(memory.addresses[0xFF80], 0x3C);
    assert_eq!(cpu.pc, 5);
    memory.addresses[0xFF81] = 0x07;
    memory.addresses[6] = 0x81;
    ldh_a8_to_a(&mut cpu, &memory);
    assert_eq!(cpu.registers.a, 0x07);
    assert_eq!(cpu.pc, 7);
}

#[test]
fn stack_pointer_stores_and_offsets() {
    let mut cpu = CPU::default();
    let mut memory = Memory::default();
    cpu.sp = 0xABCD;
    memory.addresses[1] = 0x00;
    memory.addresses[2] = 0xC0;
    ld_sp_to_n16(&mut cpu, &mut memory);
    assert_eq!(memory.addresses[0xC000], 0xCD);
    assert_eq!(memory.addresses[0xC001], 0xAB);
    assert_eq!(cpu.pc, 3);
    memory.addresses[4] = 0xFF;
    ld_sp_and_e8_to_hl(&mut cpu, &memory);
    assert_eq!(cpu.registers.get_hl(), 0xABCC);
    assert_eq!(cpu.sp, 0xABCD);
    assert_eq!(cpu.pc, 5);
    cpu.registers.set_hl(0x1234);
    ld_hl_to_sp(&mut cpu);
    assert_eq!(cpu.sp, 0x1234);
    assert_eq!(cpu.pc, 6);
}
