use vstd::prelude::*;

use crate::cpu::{wrap16, CpuView, CPU};
use crate::instructions::enums::{condition_holds, JpOperands};
use crate::instructions::load::stack_top;
use crate::instructions::misc;
use crate::instructions::utils::{
    advance_pc, get_e8, get_next_bytes_little_endian, hl, imm16, imm8, read_byte_from_memory,
    write_byte_to_memory,
};
use crate::memory::{mem_write, Memory};
use crate::registers::{high_byte, low_byte};

verus! {

/// The memory after a call pushed `ret`: the high byte at SP-1, the low byte
/// at SP-2.
pub open spec fn call_mem(s: CpuView, m: Seq<u8>, ret: u16) -> Seq<u8> {
    mem_write(
        mem_write(m, wrap16(s.sp + 0xFFFF) as int, high_byte(ret)),
        wrap16(s.sp + 0xFFFE) as int,
        low_byte(ret),
    )
}

/// The state after a call to `target`.
pub open spec fn call_cpu(s: CpuView, target: u16) -> CpuView {
    CpuView { sp: wrap16(s.sp + 0xFFFE), pc: target, ..s }
}

/// The state after a return: the program counter taken from the stack.
pub open spec fn ret_cpu(s: CpuView, m: Seq<u8>) -> CpuView {
    CpuView { pc: stack_top(s, m), sp: wrap16(s.sp + 2), ..s }
}

/// The target of a relative jump: the address after the two-byte
/// instruction plus the signed offset.
pub open spec fn relative_target(s: CpuView, m: Seq<u8>) -> u16 {
    wrap16(s.pc + 2 + (imm8(s, m) as i8) + 0x10000)
}

fn flag_value(cpu: &CPU, additional_operand: JpOperands) -> (r: bool)
    ensures
        r == condition_holds(cpu@.regs, additional_operand),
{
    match additional_operand {
        JpOperands::Z => cpu.registers.get_flag_z(),
        JpOperands::NZ => !cpu.registers.get_flag_z(),
        JpOperands::C => cpu.registers.get_flag_c(),
        JpOperands::NC => !cpu.registers.get_flag_c(),
    }
}

/// JP cc, a16: jumps when the condition holds, else skips the three bytes.
pub fn jp_with_operand(cpu: &mut CPU, memory: &mut Memory, additional_operand: JpOperands)
    requires
        old(cpu).wf(),
        old(memory).wf(),
    ensures
        final(cpu).wf(),
        *final(memory) == *old(memory),
        final(cpu)@ == (CpuView {
            pc: if condition_holds(old(cpu)@.regs, additional_operand) {
                imm16(old(cpu)@, old(memory)@)
            } else {
                wrap16(old(cpu)@.pc + 3)
            },
            ..old(cpu)@
        }),
{
    if flag_value(cpu, additional_operand) {
        jp(cpu, memory);
    } else {
        advance_pc(cpu, 3);
    }
}

/// JP a16
pub fn jp(cpu: &mut CPU, memory: &Memory)
    requires
        old(cpu).wf(),
        memory.wf(),
    ensures
        final(cpu).wf(),
        final(cpu)@ == (CpuView { pc: imm16(old(cpu)@, memory@), ..old(cpu)@ }),
{
    cpu.pc = get_next_bytes_little_endian(cpu, memory);
}

/// JP HL
pub fn jp_hl(cpu: &mut CPU)
    requires
        old(cpu).wf(),
    ensures
        final(cpu).wf(),
        final(cpu)@ == (CpuView { pc: hl(old(cpu)@.regs), ..old(cpu)@ }),
{
    cpu.pc = cpu.registers.get_hl();
}

/// JR cc, e8: jumps when the condition holds, else skips the two bytes.
pub fn jr_with_operand(cpu: &mut CPU, memory: &mut Memory, additional_operand: JpOperands)
    requires
        old(cpu).wf(),
        old(memory).wf(),
    ensures
        final(cpu).wf(),
        *final(memory) == *old(memory),
        final(cpu)@ == (CpuView {
            pc: if condition_holds(old(cpu)@.regs, additional_operand) {
                relative_target(old(cpu)@, old(memory)@)
            } else {
                wrap16(old(cpu)@.pc + 2)
            },
            ..old(cpu)@
        }),
{
    if flag_value(cpu, additional_operand) {
        jr(cpu, memory);
    } else {
        advance_pc(cpu, 2);
    }
}

/// JR e8
pub fn jr(cpu: &mut CPU, memory: &Memory)
    requires
        old(cpu).wf(),
        memory.wf(),
    ensures
        final(cpu).wf(),
        final(cpu)@ == (CpuView { pc: relative_target(old(cpu)@, memory@), ..old(cpu)@ }),
{
    let relative_address: i8 = get_e8(cpu, memory);
    cpu.pc = ((cpu.pc as i32 + 2 + relative_address as i32 + 0x10000) % 0x10000) as u16;
}

/// CALL cc, a16: calls when the condition holds, else skips the three bytes.
pub fn call_with_operand(cpu: &mut CPU, memory: &mut Memory, additional_operand: JpOperands)
    requires
        old(cpu).wf(),
        old(memory).wf(),
    ensures
        final(cpu).wf(),
        final(memory).wf(),
        condition_holds(old(cpu)@.regs, additional_operand) ==> final(cpu)@ == call_cpu(
            old(cpu)@,
            imm16(old(cpu)@, old(memory)@),
        ) && final(memory)@ == call_mem(old(cpu)@, old(memory)@, wrap16(old(cpu)@.pc + 3)),
        !condition_holds(old(cpu)@.regs, additional_operand) ==> final(cpu)@ == (CpuView {
            pc: wrap16(old(cpu)@.pc + 3),
            ..old(cpu)@
        }) && *final(memory) == *old(memory),
{
    if flag_value(cpu, additional_operand) {
        call(cpu, memory);
    } else {
        advance_pc(cpu, 3);
    }
}

/// Pushes a return address: the high byte to SP-1, the low byte to SP-2.
fn push_return_address(cpu: &mut CPU, memory: &mut Memory, ret: u16)
    requires
        old(cpu).wf(),
        old(memory).wf(),
    ensures
        final(cpu).wf(),
        final(memory).wf(),
        final(cpu)@ == (CpuView { sp: wrap16(old(cpu)@.sp + 0xFFFE), ..old(cpu)@ }),
        final(memory)@ == call_mem(old(cpu)@, old(memory)@, ret),
{
    let high_address: usize = (cpu.sp as usize + 0xFFFF) % 0x10000;
    let low_address: usize = (cpu.sp as usize + 0xFFFE) % 0x10000;
    write_byte_to_memory(memory, high_address, (ret / 256) as u8);
    write_byte_to_memory(memory, low_address, (ret % 256) as u8);
    cpu.sp = low_address as u16;
}

/// CALL a16: pushes the address of the next instruction, then jumps.
pub fn call(cpu: &mut CPU, memory: &mut Memory)
    requires
        old(cpu).wf(),
        old(memory).wf(),
    ensures
        final(cpu).wf(),
        final(memory).wf(),
        final(cpu)@ == call_cpu(old(cpu)@, imm16(old(cpu)@, old(memory)@)),
        final(memory)@ == call_mem(old(cpu)@, old(memory)@, wrap16(old(cpu)@.pc + 3)),
{
    let target = get_next_bytes_little_endian(cpu, memory);
    let ret: u16 = ((cpu.pc as u32 + 3) % 0x10000) as u16;
    push_return_address(cpu, memory, ret);
    cpu.pc = target;
}

/// RET cc: returns when the condition holds, else moves on one byte.
pub fn ret_with_operand(cpu: &mut CPU, memory: &Memory, additional_operand: JpOperands)
    requires
        old(cpu).wf(),
        memory.wf(),
    ensures
        final(cpu).wf(),
        final(cpu)@ == if condition_holds(old(cpu)@.regs, additional_operand) {
            ret_cpu(old(cpu)@, memory@)
        } else {
            CpuView { pc: wrap16(old(cpu)@.pc + 1), ..old(cpu)@ }
        },
{
    if flag_value(cpu, additional_operand) {
        ret(cpu, memory);
    } else {
        advance_pc(cpu, 1);
    }
}

/// RET: pops the program counter (low byte at SP, high byte at SP+1).
pub fn ret(cpu: &mut CPU, memory: &Memory)
    requires
        old(cpu).wf(),
        memory.wf(),
    ensures
        final(cpu).wf(),
        final(cpu)@ == ret_cpu(old(cpu)@, memory@),
{
    let value1: u16 = read_byte_from_memory(memory, cpu.sp as usize) as u16;
    let value2: u16 = read_byte_from_memory(memory, (cpu.sp as usize + 1) % 0x10000) as u16;
    cpu.pc = value2 * 256 + value1;
    cpu.sp = ((cpu.sp as u32 + 2) % 0x10000) as u16;
}

/// RETI: enables interrupts (not modelled) and returns.
pub fn reti(cpu: &mut CPU, memory: &Memory)
    requires
        old(cpu).wf(),
        memory.wf(),
    ensures
        final(cpu).wf(),
        final(cpu)@ == ret_cpu(old(cpu)@, memory@),
{
    misc::ei(cpu);
    ret(cpu, memory);
}

/// RST: calls the fixed address `address`, pushing the address of the next
/// instruction.
pub fn rst(cpu: &mut CPU, memory: &mut Memory, address: u8)
    requires
        old(cpu).wf(),
        old(memory).wf(),
    ensures
        final(cpu).wf(),
        final(memory).wf(),
        final(cpu)@ == call_cpu(old(cpu)@, address as u16),
        final(memory)@ == call_mem(old(cpu)@, old(memory)@, wrap16(old(cpu)@.pc + 1)),
{
    let ret: u16 = ((cpu.pc as u32 + 1) % 0x10000) as u16;
    push_return_address(cpu, memory, ret);
    cpu.pc = address as u16;
}

} // verus!
