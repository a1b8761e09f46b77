use vstd::prelude::*;

use crate::cpu::{wrap16, CpuView, CPU};
use crate::instructions::enums::InstructionSourceTarget;
use crate::memory::{mem_read, mem_write, Memory, MEMORY_SIZE};
use crate::registers::{high_byte, low_byte, pair_value, RegView, Registers};

verus! {

pub open spec fn bc(r: RegView) -> u16 {
    pair_value(r.b, r.c)
}

pub open spec fn de(r: RegView) -> u16 {
    pair_value(r.d, r.e)
}

pub open spec fn hl(r: RegView) -> u16 {
    pair_value(r.h, r.l)
}

/// The byte that follows the opcode.
pub open spec fn imm8(s: CpuView, m: Seq<u8>) -> u8 {
    mem_read(m, wrap16(s.pc + 1) as int)
}

/// The little-endian 16-bit value in the two bytes that follow the opcode.
pub open spec fn imm16(s: CpuView, m: Seq<u8>) -> u16 {
    pair_value(mem_read(m, wrap16(s.pc + 2) as int), mem_read(m, wrap16(s.pc + 1) as int))
}

/// The value of an 8-bit register.
pub open spec fn reg8(r: RegView, t: InstructionSourceTarget) -> u8 {
    match t {
        InstructionSourceTarget::A => r.a,
        InstructionSourceTarget::B => r.b,
        InstructionSourceTarget::C => r.c,
        InstructionSourceTarget::D => r.d,
        InstructionSourceTarget::E => r.e,
        InstructionSourceTarget::H => r.h,
        _ => r.l,
    }
}

/// The register file with one 8-bit register replaced.
pub open spec fn set_reg8(r: RegView, t: InstructionSourceTarget, v: u8) -> RegView {
    match t {
        InstructionSourceTarget::A => RegView { a: v, ..r },
        InstructionSourceTarget::B => RegView { b: v, ..r },
        InstructionSourceTarget::C => RegView { c: v, ..r },
        InstructionSourceTarget::D => RegView { d: v, ..r },
        InstructionSourceTarget::E => RegView { e: v, ..r },
        InstructionSourceTarget::H => RegView { h: v, ..r },
        _ => RegView { l: v, ..r },
    }
}

/// The byte an 8-bit operand designates: a register, or the byte at HL.
pub open spec fn operand8(r: RegView, m: Seq<u8>, t: InstructionSourceTarget) -> u8 {
    if t == InstructionSourceTarget::HlAsPointer {
        mem_read(m, hl(r) as int)
    } else {
        reg8(r, t)
    }
}

/// The registers after storing `v` to an 8-bit operand.
pub open spec fn store8_regs(r: RegView, t: InstructionSourceTarget, v: u8) -> RegView {
    if t == InstructionSourceTarget::HlAsPointer {
        r
    } else {
        set_reg8(r, t, v)
    }
}

/// The memory after storing `v` to an 8-bit operand.
pub open spec fn store8_mem(r: RegView, m: Seq<u8>, t: InstructionSourceTarget, v: u8) -> Seq<
    u8,
> {
    if t == InstructionSourceTarget::HlAsPointer {
        mem_write(m, hl(r) as int, v)
    } else {
        m
    }
}

/// The address `offset` bytes after the program counter, modulo 2^16.
pub fn pc_offset(cpu: &CPU, offset: u16) -> (r: usize)
    ensures
        r < MEMORY_SIZE,
        r == wrap16(cpu.pc + offset),
{
    (cpu.pc as usize + offset as usize) % MEMORY_SIZE
}

pub fn get_next_bytes_little_endian(cpu: &CPU, memory: &Memory) -> (r: u16)
    requires
        memory.wf(),
    ensures
        r == imm16(cpu@, memory@),
{
    let high: u8 = read_byte_from_memory(memory, pc_offset(cpu, 2));
    let low: u8 = read_byte_from_memory(memory, pc_offset(cpu, 1));
    (high as u16) * 256 + low as u16
}

/// The byte after the opcode read as a signed offset.
pub fn get_e8(cpu: &CPU, memory: &Memory) -> (r: i8)
    requires
        memory.wf(),
    ensures
        r == imm8(cpu@, memory@) as i8,
{
    read_byte_from_memory(memory, pc_offset(cpu, 1)) as i8
}

pub fn read_byte_from_memory(memory: &Memory, address: usize) -> (r: u8)
    requires
        memory.wf(),
        address < MEMORY_SIZE,
    ensures
        r == mem_read(memory@, address as int),
{
    if address >= 0xE000 && address < 0xFDFF {
        memory.addresses[address - 0x2000]
    } else {
        memory.addresses[address]
    }
}

pub fn write_byte_to_memory(memory: &mut Memory, address: usize, value: u8)
    requires
        old(memory).wf(),
        address < MEMORY_SIZE,
    ensures
        final(memory).wf(),
        final(memory)@ == mem_write(old(memory)@, address as int, value),
{
    if address >= 0xE000 && address < 0xFDFF {
        memory.addresses.set(address - 0x2000, value);
    } else {
        memory.addresses.set(address, value);
    }
}

/// Reads an 8-bit register.
pub fn read_r8(regs: &Registers, t: InstructionSourceTarget) -> (r: u8)
    requires
        t.is_r8(),
    ensures
        r == reg8(regs@, t),
{
    match t {
        InstructionSourceTarget::A => regs.a,
        InstructionSourceTarget::B => regs.b,
        InstructionSourceTarget::C => regs.c,
        InstructionSourceTarget::D => regs.d,
        InstructionSourceTarget::E => regs.e,
        InstructionSourceTarget::H => regs.h,
        _ => regs.l,
    }
}

/// Writes an 8-bit register.
pub fn write_r8(regs: &mut Registers, t: InstructionSourceTarget, v: u8)
    requires
        old(regs).wf(),
        t.is_r8(),
    ensures
        final(regs).wf(),
        final(regs)@ == set_reg8(old(regs)@, t, v),
{
    match t {
        InstructionSourceTarget::A => regs.a = v,
        InstructionSourceTarget::B => regs.b = v,
        InstructionSourceTarget::C => regs.c = v,
        InstructionSourceTarget::D => regs.d = v,
        InstructionSourceTarget::E => regs.e = v,
        InstructionSourceTarget::H => regs.h = v,
        _ => regs.l = v,
    }
}

/// Reads an 8-bit operand: a register, or the byte at HL.
pub fn read_operand(cpu: &CPU, memory: &Memory, t: InstructionSourceTarget) -> (r: u8)
    requires
        memory.wf(),
        t.is_operand8(),
    ensures
        r == operand8(cpu@.regs, memory@, t),
{
    if t == InstructionSourceTarget::HlAsPointer {
        read_byte_from_memory(memory, cpu.registers.get_hl() as usize)
    } else {
        read_r8(&cpu.registers, t)
    }
}

/// Writes an 8-bit operand: a register, or the byte at HL.
pub fn write_operand(cpu: &mut CPU, memory: &mut Memory, t: InstructionSourceTarget, v: u8)
    requires
        old(cpu).wf(),
        old(memory).wf(),
        t.is_operand8(),
    ensures
        final(cpu).wf(),
        final(memory).wf(),
        final(cpu)@ == (CpuView { regs: store8_regs(old(cpu)@.regs, t, v), ..old(cpu)@ }),
        final(memory)@ == store8_mem(old(cpu)@.regs, old(memory)@, t, v),
{
    if t == InstructionSourceTarget::HlAsPointer {
        let address = cpu.registers.get_hl() as usize;
        write_byte_to_memory(memory, address, v);
    } else {
        write_r8(&mut cpu.registers, t, v);
    }
}

/// The value of a register pair or of the stack pointer.
pub open spec fn r16(s: CpuView, t: InstructionSourceTarget) -> u16 {
    match t {
        InstructionSourceTarget::BC => bc(s.regs),
        InstructionSourceTarget::DE => de(s.regs),
        InstructionSourceTarget::HL => hl(s.regs),
        _ => s.sp,
    }
}

/// The state with a register pair or the stack pointer replaced.
pub open spec fn set_r16(s: CpuView, t: InstructionSourceTarget, v: u16) -> CpuView {
    match t {
        InstructionSourceTarget::BC => CpuView {
            regs: RegView { b: high_byte(v), c: low_byte(v), ..s.regs },
            ..s
        },
        InstructionSourceTarget::DE => CpuView {
            regs: RegView { d: high_byte(v), e: low_byte(v), ..s.regs },
            ..s
        },
        InstructionSourceTarget::HL => CpuView {
            regs: RegView { h: high_byte(v), l: low_byte(v), ..s.regs },
            ..s
        },
        _ => CpuView { sp: v, ..s },
    }
}

/// Moves the program counter `width` bytes on, modulo 2^16.
pub fn advance_pc(cpu: &mut CPU, width: u16)
    ensures
        final(cpu)@ == (CpuView { pc: wrap16(old(cpu).pc + width), ..old(cpu)@ }),
        final(cpu).registers == old(cpu).registers,
{
    cpu.pc = ((cpu.pc as u32 + width as u32) % 0x10000) as u16;
}

/// Reads a register pair or the stack pointer.
pub fn read_r16(cpu: &CPU, t: InstructionSourceTarget) -> (r: u16)
    requires
        t.is_r16(),
    ensures
        r == r16(cpu@, t),
{
    match t {
        InstructionSourceTarget::BC => cpu.registers.get_bc(),
        InstructionSourceTarget::DE => cpu.registers.get_de(),
        InstructionSourceTarget::HL => cpu.registers.get_hl(),
        _ => cpu.sp,
    }
}

/// Writes a register pair or the stack pointer.
pub fn write_r16(cpu: &mut CPU, t: InstructionSourceTarget, v: u16)
    requires
        old(cpu).wf(),
        t.is_r16(),
    ensures
        final(cpu).wf(),
        final(cpu)@ == set_r16(old(cpu)@, t, v),
{
    match t {
        InstructionSourceTarget::BC => cpu.registers.set_bc(v),
        InstructionSourceTarget::DE => cpu.registers.set_de(v),
        InstructionSourceTarget::HL => cpu.registers.set_hl(v),
        _ => cpu.sp = v,
    }
}

} // verus!
