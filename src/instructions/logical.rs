use vstd::prelude::*;

use crate::cpu::{advance, CpuView, CPU};
use crate::instructions::enums::InstructionSourceTarget;
use crate::instructions::utils::{advance_pc, hl, imm8, pc_offset, read_byte_from_memory, read_r8, reg8};
use crate::memory::{mem_read, Memory};
use crate::registers::RegView;

verus! {

/// The registers after AND-ing `v` into the accumulator.
pub open spec fn and8(r: RegView, v: u8) -> RegView {
    RegView { a: r.a & v, zf: r.a & v == 0, nf: false, hf: true, cf: false, ..r }
}

/// The registers after OR-ing `v` into the accumulator.
pub open spec fn or8(r: RegView, v: u8) -> RegView {
    RegView { a: r.a | v, zf: r.a | v == 0, nf: false, hf: false, cf: false, ..r }
}

/// The registers after XOR-ing `v` into the accumulator.
pub open spec fn xor8(r: RegView, v: u8) -> RegView {
    RegView { a: r.a ^ v, zf: r.a ^ v == 0, nf: false, hf: false, cf: false, ..r }
}

/// AND A, r
pub fn and(cpu: &mut CPU, source: InstructionSourceTarget)
    requires
        old(cpu).wf(),
        source.is_r8(),
    ensures
        final(cpu).wf(),
        final(cpu)@ == advance(old(cpu)@, and8(old(cpu)@.regs, reg8(old(cpu)@.regs, source)), 1),
{
    let and_value = read_r8(&cpu.registers, source);
    cpu.registers.a = cpu.registers.a & and_value;
    set_and_flags(cpu);
    advance_pc(cpu, 1);
}

/// AND A, (HL)
pub fn and_hl(cpu: &mut CPU, memory: &Memory)
    requires
        old(cpu).wf(),
        memory.wf(),
    ensures
        final(cpu).wf(),
        final(cpu)@ == advance(
            old(cpu)@,
            and8(old(cpu)@.regs, mem_read(memory@, hl(old(cpu)@.regs) as int)),
            1,
        ),
{
    let and_value = read_byte_from_memory(memory, cpu.registers.get_hl() as usize);
    cpu.registers.a = cpu.registers.a & and_value;
    set_and_flags(cpu);
    advance_pc(cpu, 1);
}

/// AND A, n8
pub fn and_n8(cpu: &mut CPU, memory: &Memory)
    requires
        old(cpu).wf(),
        memory.wf(),
    ensures
        final(cpu).wf(),
        final(cpu)@ == advance(old(cpu)@, and8(old(cpu)@.regs, imm8(old(cpu)@, memory@)), 2),
{
    let and_value = read_byte_from_memory(memory, pc_offset(cpu, 1));
    cpu.registers.a = cpu.registers.a & and_value;
    set_and_flags(cpu);
    advance_pc(cpu, 2);
}

fn set_and_flags(cpu: &mut CPU)
    requires
        old(cpu).wf(),
    ensures
        final(cpu).wf(),
        final(cpu)@ == (CpuView {
            regs: RegView {
                zf: old(cpu).registers.a == 0,
                nf: false,
                hf: true,
                cf: false,
                ..old(cpu)@.regs
            },
            ..old(cpu)@
        }),
{
    let zero = cpu.registers.a == 0;
    cpu.registers.set_flags(zero, false, true, false);
}

/// XOR A, r
pub fn xor(cpu: &mut CPU, source: InstructionSourceTarget)
    requires
        old(cpu).wf(),
        source.is_r8(),
    ensures
        final(cpu).wf(),
        final(cpu)@ == advance(old(cpu)@, xor8(old(cpu)@.regs, reg8(old(cpu)@.regs, source)), 1),
{
    let xor_value = read_r8(&cpu.registers, source);
    cpu.registers.a = cpu.registers.a ^ xor_value;
    set_or_xor_flags(cpu);
    advance_pc(cpu, 1);
}

/// XOR A, (HL)
pub fn xor_hl(cpu: &mut CPU, memory: &Memory)
    requires
        old(cpu).wf(),
        memory.wf(),
    ensures
        final(cpu).wf(),
        final(cpu)@ == advance(
            old(cpu)@,
            xor8(old(cpu)@.regs, mem_read(memory@, hl(old(cpu)@.regs) as int)),
            1,
        ),
{
    let xor_value = read_byte_from_memory(memory, cpu.registers.get_hl() as usize);
    cpu.registers.a = cpu.registers.a ^ xor_value;
    set_or_xor_flags(cpu);
    advance_pc(cpu, 1);
}

/// XOR A, n8
pub fn xor_n8(cpu: &mut CPU, memory: &Memory)
    requires
        old(cpu).wf(),
        memory.wf(),
    ensures
        final(cpu).wf(),
        final(cpu)@ == advance(old(cpu)@, xor8(old(cpu)@.regs, imm8(old(cpu)@, memory@)), 2),
{
    let xor_value = read_byte_from_memory(memory, pc_offset(cpu, 1));
    cpu.registers.a = cpu.registers.a ^ xor_value;
    set_or_xor_flags(cpu);
    advance_pc(cpu, 2);
}

/// OR A, r
pub fn or(cpu: &mut CPU, source: InstructionSourceTarget)
    requires
        old(cpu).wf(),
        source.is_r8(),
    ensures
        final(cpu).wf(),
        final(cpu)@ == advance(old(cpu)@, or8(old(cpu)@.regs, reg8(old(cpu)@.regs, source)), 1),
{
    let or_value = read_r8(&cpu.registers, source);
    cpu.registers.a = cpu.registers.a | or_value;
    set_or_xor_flags(cpu);
    advance_pc(cpu, 1);
}

/// OR A, (HL)
pub fn or_hl(cpu: &mut CPU, memory: &Memory)
    requires
        old(cpu).wf(),
        memory.wf(),
    ensures
        final(cpu).wf(),
        final(cpu)@ == advance(
            old(cpu)@,
            or8(old(cpu)@.regs, mem_read(memory@, hl(old(cpu)@.regs) as int)),
            1,
        ),
{
    let or_value = read_byte_from_memory(memory, cpu.registers.get_hl() as usize);
    cpu.registers.a = cpu.registers.a | or_value;
    set_or_xor_flags(cpu);
    advance_pc(cpu, 1);
}

/// OR A, n8
pub fn or_n8(cpu: &mut CPU, memory: &Memory)
    requires
        old(cpu).wf(),
        memory.wf(),
    ensures
        final(cpu).wf(),
        final(cpu)@ == advance(old(cpu)@, or8(old(cpu)@.regs, imm8(old(cpu)@, memory@)), 2),
{
    let or_value = read_byte_from_memory(memory, pc_offset(cpu, 1));
    cpu.registers.a = cpu.registers.a | or_value;
    set_or_xor_flags(cpu);
    advance_pc(cpu, 2);
}

fn set_or_xor_flags(cpu: &mut CPU)
    requires
        old(cpu).wf(),
    ensures
        final(cpu).wf(),
        final(cpu)@ == (CpuView {
            regs: RegView {
                zf: old(cpu).registers.a == 0,
                nf: false,
                hf: false,
                cf: false,
                ..old(cpu)@.regs
            },
            ..old(cpu)@
        }),
{
    let zero = cpu.registers.a == 0;
    cpu.registers.set_flags(zero, false, false, false);
}

} // verus!
