use vstd::prelude::*;

use crate::cpu::{advance, wrap16, CpuView, CPU};
use crate::instructions::enums::InstructionSourceTarget;
use crate::instructions::utils::{
    advance_pc, get_e8, hl, imm8, pc_offset, r16, read_byte_from_memory, read_r16, read_r8, reg8,
};
use crate::memory::{mem_read, Memory};
use crate::registers::{high_byte, low_byte, RegView};

verus! {

pub open spec fn carry_value(c: bool) -> int {
    if c {
        1
    } else {
        0
    }
}

/// The registers after adding `v` (and the carry in) to the accumulator.
pub open spec fn add8(r: RegView, v: u8, carry_in: bool) -> RegView {
    let sum: int = r.a + v + carry_value(carry_in);
    RegView {
        a: (sum % 256) as u8,
        zf: sum % 256 == 0,
        nf: false,
        hf: (r.a & 0x0F) + (v & 0x0F) + carry_value(carry_in) > 0x0F,
        cf: sum > 0xFF,
        ..r
    }
}

/// The registers after subtracting `v` (and the carry in) from the
/// accumulator.
pub open spec fn sub8(r: RegView, v: u8, carry_in: bool) -> RegView {
    let diff: int = r.a - v - carry_value(carry_in);
    RegView {
        a: ((diff + 256) % 256) as u8,
        zf: (diff + 256) % 256 == 0,
        nf: true,
        hf: (r.a & 0x0F) < (v & 0x0F) + carry_value(carry_in),
        cf: diff < 0,
        ..r
    }
}

/// The registers after comparing the accumulator with `v`: the flags of the
/// subtraction, the accumulator unchanged.
pub open spec fn cp8(r: RegView, v: u8) -> RegView {
    RegView { a: r.a, ..sub8(r, v, false) }
}

/// The registers after adding `v` to HL; the zero flag is kept.
pub open spec fn add16_hl(r: RegView, v: u16) -> RegView {
    let sum: int = hl(r) + v;
    RegView {
        h: high_byte((sum % 0x10000) as u16),
        l: low_byte((sum % 0x10000) as u16),
        nf: false,
        hf: (hl(r) & 0x0FFF) + (v & 0x0FFF) > 0x0FFF,
        cf: sum > 0xFFFF,
        ..r
    }
}

/// Addition sets the carry exactly when the sum exceeds 255, and the
/// half-carry exactly when the low nibbles sum past 0xF.
pub proof fn lemma_add_flags(r: RegView, v: u8)
    ensures
        add8(r, v, false).cf <==> r.a + v > 255,
        add8(r, v, false).hf <==> (r.a & 0x0F) + (v & 0x0F) > 0x0F,
        add8(r, v, false).a == (r.a + v) % 256,
{
}

/// ADD A, r
pub fn add(cpu: &mut CPU, source: InstructionSourceTarget)
    requires
        old(cpu).wf(),
        source.is_r8(),
    ensures
        final(cpu).wf(),
        final(cpu)@ == advance(
            old(cpu)@,
            add8(old(cpu)@.regs, reg8(old(cpu)@.regs, source), false),
            1,
        ),
{
    let added_value = read_r8(&cpu.registers, source);
    set_add_flags(cpu, added_value, false);
    handle_addition(cpu, added_value, false);
    advance_pc(cpu, 1);
}

/// ADD A, (HL)
pub fn add_hl(cpu: &mut CPU, memory: &Memory)
    requires
        old(cpu).wf(),
        memory.wf(),
    ensures
        final(cpu).wf(),
        final(cpu)@ == advance(
            old(cpu)@,
            add8(old(cpu)@.regs, mem_read(memory@, hl(old(cpu)@.regs) as int), false),
            1,
        ),
{
    let added_value = read_byte_from_memory(memory, cpu.registers.get_hl() as usize);
    set_add_flags(cpu, added_value, false);
    handle_addition(cpu, added_value, false);
    advance_pc(cpu, 1);
}

/// ADD A, n8
pub fn add_n8(cpu: &mut CPU, memory: &Memory)
    requires
        old(cpu).wf(),
        memory.wf(),
    ensures
        final(cpu).wf(),
        final(cpu)@ == advance(
            old(cpu)@,
            add8(old(cpu)@.regs, imm8(old(cpu)@, memory@), false),
            2,
        ),
{
    let added_value = read_byte_from_memory(memory, pc_offset(cpu, 1));
    set_add_flags(cpu, added_value, false);
    handle_addition(cpu, added_value, false);
    advance_pc(cpu, 2);
}

/// ADD HL, rr
pub fn add_to_hl(cpu: &mut CPU, target: InstructionSourceTarget)
    requires
        old(cpu).wf(),
        target.is_r16(),
    ensures
        final(cpu).wf(),
        final(cpu)@ == advance(
            old(cpu)@,
            add16_hl(old(cpu)@.regs, r16(old(cpu)@, target)),
            1,
        ),
{
    let value = read_r16(cpu, target);
    let old_hl = cpu.registers.get_hl();
    let sum: u32 = old_hl as u32 + value as u32;
    cpu.registers.set_flag_n(false);
    cpu.registers.set_flag_h((old_hl & 0x0FFF) as u32 + (value & 0x0FFF) as u32 > 0x0FFF);
    cpu.registers.set_flag_c(sum > 0xFFFF);
    cpu.registers.set_hl((sum % 0x10000) as u16);
    advance_pc(cpu, 1);
}

/// ADC A, r
pub fn adc(cpu: &mut CPU, source: InstructionSourceTarget)
    requires
        old(cpu).wf(),
        source.is_r8(),
    ensures
        final(cpu).wf(),
        final(cpu)@ == advance(
            old(cpu)@,
            add8(old(cpu)@.regs, reg8(old(cpu)@.regs, source), old(cpu)@.regs.cf),
            1,
        ),
{
    let added_value = read_r8(&cpu.registers, source);
    let carry = cpu.registers.get_flag_c();
    set_add_flags(cpu, added_value, carry);
    handle_addition(cpu, added_value, carry);
    advance_pc(cpu, 1);
}

/// ADC A, (HL)
pub fn adc_hl(cpu: &mut CPU, memory: &Memory)
    requires
        old(cpu).wf(),
        memory.wf(),
    ensures
        final(cpu).wf(),
        final(cpu)@ == advance(
            old(cpu)@,
            add8(
                old(cpu)@.regs,
                mem_read(memory@, hl(old(cpu)@.regs) as int),
                old(cpu)@.regs.cf,
            ),
            1,
        ),
{
    let added_value = read_byte_from_memory(memory, cpu.registers.get_hl() as usize);
    let carry = cpu.registers.get_flag_c();
    set_add_flags(cpu, added_value, carry);
    handle_addition(cpu, added_value, carry);
    advance_pc(cpu, 1);
}

/// ADC A, n8
pub fn adc_n8(cpu: &mut CPU, memory: &Memory)
    requires
        old(cpu).wf(),
        memory.wf(),
    ensures
        final(cpu).wf(),
        final(cpu)@ == advance(
            old(cpu)@,
            add8(old(cpu)@.regs, imm8(old(cpu)@, memory@), old(cpu)@.regs.cf),
            2,
        ),
{
    let added_value = read_byte_from_memory(memory, pc_offset(cpu, 1));
    let carry = cpu.registers.get_flag_c();
    set_add_flags(cpu, added_value, carry);
    handle_addition(cpu, added_value, carry);
    advance_pc(cpu, 2);
}

/// Stores the sum into the accumulator.
fn handle_addition(cpu: &mut CPU, added_value: u8, carry_in: bool)
    requires
        old(cpu).wf(),
    ensures
        final(cpu).wf(),
        final(cpu)@ == (CpuView {
            regs: RegView { a: add8(old(cpu)@.regs, added_value, carry_in).a, ..old(cpu)@.regs },
            ..old(cpu)@
        }),
{
    let carry: u16 = if carry_in {
        1
    } else {
        0
    };
    let new_value: u16 = cpu.registers.a as u16 + added_value as u16 + carry;
    cpu.registers.a = (new_value % 256) as u8;
}

/// Sets the flags of the sum; the accumulator is left as it is.
fn set_add_flags(cpu: &mut CPU, added_value: u8, carry_in: bool)
    requires
        old(cpu).wf(),
    ensures
        final(cpu).wf(),
        final(cpu)@ == (CpuView {
            regs: RegView { a: old(cpu)@.regs.a, ..add8(old(cpu)@.regs, added_value, carry_in) },
            ..old(cpu)@
        }),
{
    let a = cpu.registers.a;
    let carry: u8 = if carry_in {
        1
    } else {
        0
    };
    let new_value: u16 = a as u16 + added_value as u16 + carry as u16;
    cpu.registers.set_flags(
        new_value % 256 == 0,
        false,
        (a & 0x0F) as u16 + (added_value & 0x0F) as u16 + carry as u16 > 0x0F,
        new_value > 0xFF,
    );
}

/// SUB A, r
pub fn sub(cpu: &mut CPU, source: InstructionSourceTarget)
    requires
        old(cpu).wf(),
        source.is_r8(),
    ensures
        final(cpu).wf(),
        final(cpu)@ == advance(
            old(cpu)@,
            sub8(old(cpu)@.regs, reg8(old(cpu)@.regs, source), false),
            1,
        ),
{
    let subtracted_value = read_r8(&cpu.registers, source);
    handle_sub(cpu, subtracted_value, false);
    advance_pc(cpu, 1);
}

/// SUB A, (HL)
pub fn sub_hl(cpu: &mut CPU, memory: &Memory)
    requires
        old(cpu).wf(),
        memory.wf(),
    ensures
        final(cpu).wf(),
        final(cpu)@ == advance(
            old(cpu)@,
            sub8(old(cpu)@.regs, mem_read(memory@, hl(old(cpu)@.regs) as int), false),
            1,
        ),
{
    let subtracted_value = read_byte_from_memory(memory, cpu.registers.get_hl() as usize);
    handle_sub(cpu, subtracted_value, false);
    advance_pc(cpu, 1);
}

/// SUB A, n8
pub fn sub_n8(cpu: &mut CPU, memory: &Memory)
    requires
        old(cpu).wf(),
        memory.wf(),
    ensures
        final(cpu).wf(),
        final(cpu)@ == advance(
            old(cpu)@,
            sub8(old(cpu)@.regs, imm8(old(cpu)@, memory@), false),
            2,
        ),
{
    let subtracted_value = read_byte_from_memory(memory, pc_offset(cpu, 1));
    handle_sub(cpu, subtracted_value, false);
    advance_pc(cpu, 2);
}

/// CP A, r
pub fn cp(cpu: &mut CPU, source: InstructionSourceTarget)
    requires
        old(cpu).wf(),
        source.is_r8(),
    ensures
        final(cpu).wf(),
        final(cpu)@ == advance(old(cpu)@, cp8(old(cpu)@.regs, reg8(old(cpu)@.regs, source)), 1),
{
    let subtracted_value = read_r8(&cpu.registers, source);
    set_sub_flags(cpu, subtracted_value, false);
    advance_pc(cpu, 1);
}

/// CP A, (HL)
pub fn cp_hl(cpu: &mut CPU, memory: &Memory)
    requires
        old(cpu).wf(),
        memory.wf(),
    ensures
        final(cpu).wf(),
        final(cpu)@ == advance(
            old(cpu)@,
            cp8(old(cpu)@.regs, mem_read(memory@, hl(old(cpu)@.regs) as int)),
            1,
        ),
{
    let subtracted_value = read_byte_from_memory(memory, cpu.registers.get_hl() as usize);
    set_sub_flags(cpu, subtracted_value, false);
    advance_pc(cpu, 1);
}

/// CP A, n8
pub fn cp_n8(cpu: &mut CPU, memory: &Memory)
    requires
        old(cpu).wf(),
        memory.wf(),
    ensures
        final(cpu).wf(),
        final(cpu)@ == advance(old(cpu)@, cp8(old(cpu)@.regs, imm8(old(cpu)@, memory@)), 2),
{
    let subtracted_value = read_byte_from_memory(memory, pc_offset(cpu, 1));
    set_sub_flags(cpu, subtracted_value, false);
    advance_pc(cpu, 2);
}

/// SBC A, r. The carry flag is recomputed from the subtraction for every
/// source register, the accumulator included.
pub fn sbc(cpu: &mut CPU, source: InstructionSourceTarget)
    requires
        old(cpu).wf(),
        source.is_r8(),
    ensures
        final(cpu).wf(),
        final(cpu)@ == advance(
            old(cpu)@,
            sub8(old(cpu)@.regs, reg8(old(cpu)@.regs, source), old(cpu)@.regs.cf),
            1,
        ),
{
    let subtracted_value = read_r8(&cpu.registers, source);
    let carry = cpu.registers.get_flag_c();
    handle_sub(cpu, subtracted_value, carry);
    advance_pc(cpu, 1);
}

/// SBC A, (HL)
pub fn sbc_hl(cpu: &mut CPU, memory: &Memory)
    requires
        old(cpu).wf(),
        memory.wf(),
    ensures
        final(cpu).wf(),
        final(cpu)@ == advance(
            old(cpu)@,
            sub8(
                old(cpu)@.regs,
                mem_read(memory@, hl(old(cpu)@.regs) as int),
                old(cpu)@.regs.cf,
            ),
            1,
        ),
{
    let subtracted_value = read_byte_from_memory(memory, cpu.registers.get_hl() as usize);
    let carry = cpu.registers.get_flag_c();
    handle_sub(cpu, subtracted_value, carry);
    advance_pc(cpu, 1);
}

/// SBC A, n8
pub fn sbc_n8(cpu: &mut CPU, memory: &Memory)
    requires
        old(cpu).wf(),
        memory.wf(),
    ensures
        final(cpu).wf(),
        final(cpu)@ == advance(
            old(cpu)@,
            sub8(old(cpu)@.regs, imm8(old(cpu)@, memory@), old(cpu)@.regs.cf),
            2,
        ),
{
    let subtracted_value = read_byte_from_memory(memory, pc_offset(cpu, 1));
    let carry = cpu.registers.get_flag_c();
    handle_sub(cpu, subtracted_value, carry);
    advance_pc(cpu, 2);
}

/// Sets the flags of the difference, then stores it into the accumulator.
fn handle_sub(cpu: &mut CPU, subtracted_value: u8, carry_in: bool)
    requires
        old(cpu).wf(),
    ensures
        final(cpu).wf(),
        final(cpu)@ == (CpuView {
            regs: sub8(old(cpu)@.regs, subtracted_value, carry_in),
            ..old(cpu)@
        }),
{
    let a = cpu.registers.a;
    set_sub_flags(cpu, subtracted_value, carry_in);
    let carry: u16 = if carry_in {
        1
    } else {
        0
    };
    cpu.registers.a = ((a as u16 + 256 - subtracted_value as u16 - carry) % 256) as u8;
}

/// Sets the flags of the difference; the accumulator is left as it is.
fn set_sub_flags(cpu: &mut CPU, subtracted_value: u8, carry_in: bool)
    requires
        old(cpu).wf(),
    ensures
        final(cpu).wf(),
        final(cpu)@ == (CpuView {
            regs: RegView {
                a: old(cpu)@.regs.a,
                ..sub8(old(cpu)@.regs, subtracted_value, carry_in)
            },
            ..old(cpu)@
        }),
{
    let a = cpu.registers.a;
    let carry: u8 = if carry_in {
        1
    } else {
        0
    };
    let total: u16 = subtracted_value as u16 + carry as u16;
    let new_value: u16 = (a as u16 + 256 - total) % 256;
    cpu.registers.set_flags(
        new_value == 0,
        true,
        ((a & 0x0F) as u16) < (subtracted_value & 0x0F) as u16 + carry as u16,
        (a as u16) < total,
    );
}

/// The state after ADD SP, e8.
pub open spec fn add_sp_spec(s: CpuView, m: Seq<u8>) -> CpuView {
    CpuView {
        regs: RegView {
            zf: false,
            nf: false,
            hf: (s.sp & 0x0F) + (imm8(s, m) & 0x0F) > 0x0F,
            cf: (s.sp & 0xFF) + imm8(s, m) > 0xFF,
            ..s.regs
        },
        sp: wrap16(s.sp + (imm8(s, m) as i8) + 0x10000),
        pc: wrap16(s.pc + 2),
    }
}

/// ADD SP, e8: adds a signed offset to the stack pointer, modulo 2^16.
/// Half-carry and carry come from the unsigned addition of the offset byte to
/// the low byte of SP; zero and subtract are cleared.
pub fn add_to_sp(cpu: &mut CPU, memory: &Memory)
    requires
        old(cpu).wf(),
        memory.wf(),
    ensures
        final(cpu).wf(),
        final(cpu)@ == add_sp_spec(old(cpu)@, memory@),
{
    let byte: u8 = read_byte_from_memory(memory, pc_offset(cpu, 1));
    let offset: i8 = get_e8(cpu, memory);
    let sp = cpu.sp;
    cpu.registers.set_flags(
        false,
        false,
        (sp & 0x0F) as u32 + (byte & 0x0F) as u32 > 0x0F,
        (sp & 0xFF) as u32 + byte as u32 > 0xFF,
    );
    cpu.sp = ((sp as i32 + offset as i32 + 0x10000) % 0x10000) as u16;
    advance_pc(cpu, 2);
}

} // verus!
