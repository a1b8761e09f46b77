use vstd::prelude::*;

use crate::cpu::{advance, wrap16, CpuView, CPU};
use crate::instructions::enums::InstructionSourceTarget;
use crate::instructions::utils::{
    advance_pc, bc, de, get_e8, get_next_bytes_little_endian, hl, imm16, imm8, operand8,
    pc_offset, read_byte_from_memory, read_operand, set_r16, store8_mem, store8_regs,
    write_byte_to_memory, write_operand, write_r16,
};
use crate::memory::{echo_target, mem_read, mem_write, Memory, MEMORY_SIZE};
use crate::registers::{flag_bits, high_byte, low_byte, pair_value, RegView};

verus! {

/// The value of a register pair that the stack instructions take; AF holds
/// the accumulator and the flags byte.
pub open spec fn pair16(r: RegView, t: InstructionSourceTarget) -> u16 {
    match t {
        InstructionSourceTarget::BC => bc(r),
        InstructionSourceTarget::DE => de(r),
        InstructionSourceTarget::HL => hl(r),
        _ => (r.a as int * 256 + flag_bits(r)) as u16,
    }
}

/// The registers with a stack pair replaced; for AF the low nibble of the
/// flags byte is dropped.
pub open spec fn set_pair16(r: RegView, t: InstructionSourceTarget, v: u16) -> RegView {
    match t {
        InstructionSourceTarget::BC => RegView { b: high_byte(v), c: low_byte(v), ..r },
        InstructionSourceTarget::DE => RegView { d: high_byte(v), e: low_byte(v), ..r },
        InstructionSourceTarget::HL => RegView { h: high_byte(v), l: low_byte(v), ..r },
        _ => RegView {
            a: high_byte(v),
            zf: low_byte(v) & 0x80 != 0,
            nf: low_byte(v) & 0x40 != 0,
            hf: low_byte(v) & 0x20 != 0,
            cf: low_byte(v) & 0x10 != 0,
            ..r
        },
    }
}

/// The memory after PUSH: the high byte at SP-1, the low byte at SP-2.
pub open spec fn push_mem(s: CpuView, m: Seq<u8>, t: InstructionSourceTarget) -> Seq<u8> {
    mem_write(
        mem_write(m, wrap16(s.sp + 0xFFFF) as int, high_byte(pair16(s.regs, t))),
        wrap16(s.sp + 0xFFFE) as int,
        low_byte(pair16(s.regs, t)),
    )
}

/// The state after PUSH.
pub open spec fn push_cpu(s: CpuView) -> CpuView {
    CpuView { sp: wrap16(s.sp + 0xFFFE), pc: wrap16(s.pc + 1), ..s }
}

/// The 16-bit value on top of the stack: low byte at SP, high byte at SP+1.
pub open spec fn stack_top(s: CpuView, m: Seq<u8>) -> u16 {
    pair_value(mem_read(m, wrap16(s.sp + 1) as int), mem_read(m, s.sp as int))
}

/// The state after POP.
pub open spec fn pop_cpu(s: CpuView, m: Seq<u8>, t: InstructionSourceTarget) -> CpuView {
    CpuView {
        regs: set_pair16(s.regs, t, stack_top(s, m)),
        sp: wrap16(s.sp + 2),
        pc: wrap16(s.pc + 1),
    }
}

/// The address that an indirect accumulator load or store uses.
pub open spec fn pointer_address(r: RegView, t: InstructionSourceTarget) -> u16 {
    match t {
        InstructionSourceTarget::BcAsPointer => bc(r),
        InstructionSourceTarget::DeAsPointer => de(r),
        InstructionSourceTarget::CAsPointer => (0xFF00 + r.c) as u16,
        _ => hl(r),
    }
}

/// The registers after the indirect access: HL+ increments HL, HL-
/// decrements it, both modulo 2^16, for loads and stores alike.
pub open spec fn pointer_post(r: RegView, t: InstructionSourceTarget) -> RegView {
    match t {
        InstructionSourceTarget::HlPlus => RegView {
            h: high_byte(wrap16(hl(r) + 1)),
            l: low_byte(wrap16(hl(r) + 1)),
            ..r
        },
        InstructionSourceTarget::HlMinus => RegView {
            h: high_byte(wrap16(hl(r) + 0xFFFF)),
            l: low_byte(wrap16(hl(r) + 0xFFFF)),
            ..r
        },
        _ => r,
    }
}

/// LD r, r' (either side may be the byte at HL)
pub fn ld_r8_r8(
    cpu: &mut CPU,
    memory: &mut Memory,
    target: InstructionSourceTarget,
    source: InstructionSourceTarget,
)
    requires
        old(cpu).wf(),
        old(memory).wf(),
        target.is_operand8(),
        source.is_operand8(),
    ensures
        final(cpu).wf(),
        final(memory).wf(),
        final(cpu)@ == advance(
            old(cpu)@,
            store8_regs(old(cpu)@.regs, target, operand8(old(cpu)@.regs, old(memory)@, source)),
            1,
        ),
        final(memory)@ == store8_mem(
            old(cpu)@.regs,
            old(memory)@,
            target,
            operand8(old(cpu)@.regs, old(memory)@, source),
        ),
{
    let value = read_operand(cpu, memory, source);
    write_operand(cpu, memory, target, value);
    advance_pc(cpu, 1);
}

/// LD rr, n16
pub fn ld_n16(cpu: &mut CPU, memory: &mut Memory, target: InstructionSourceTarget)
    requires
        old(cpu).wf(),
        old(memory).wf(),
        target.is_r16(),
    ensures
        final(cpu).wf(),
        *final(memory) == *old(memory),
        final(cpu)@ == (CpuView {
            pc: wrap16(old(cpu)@.pc + 3),
            ..set_r16(old(cpu)@, target, imm16(old(cpu)@, old(memory)@))
        }),
{
    let value = get_next_bytes_little_endian(cpu, memory);
    write_r16(cpu, target, value);
    advance_pc(cpu, 3);
}

/// LD r, n8 (the target may be the byte at HL)
pub fn ld_n8(cpu: &mut CPU, memory: &mut Memory, target: InstructionSourceTarget)
    requires
        old(cpu).wf(),
        old(memory).wf(),
        target.is_operand8(),
    ensures
        final(cpu).wf(),
        final(memory).wf(),
        final(cpu)@ == advance(
            old(cpu)@,
            store8_regs(old(cpu)@.regs, target, imm8(old(cpu)@, old(memory)@)),
            2,
        ),
        final(memory)@ == store8_mem(
            old(cpu)@.regs,
            old(memory)@,
            target,
            imm8(old(cpu)@, old(memory)@),
        ),
{
    let value = read_byte_from_memory(memory, pc_offset(cpu, 1));
    write_operand(cpu, memory, target, value);
    advance_pc(cpu, 2);
}

/// The address of an indirect access, with HL moved on for HL+ and HL-.
fn take_pointer(cpu: &mut CPU, pointer: InstructionSourceTarget) -> (r: u16)
    requires
        old(cpu).wf(),
        pointer.is_a_pointer(),
    ensures
        final(cpu).wf(),
        r == pointer_address(old(cpu)@.regs, pointer),
        final(cpu)@ == (CpuView { regs: pointer_post(old(cpu)@.regs, pointer), ..old(cpu)@ }),
{
    match pointer {
        InstructionSourceTarget::BcAsPointer => cpu.registers.get_bc(),
        InstructionSourceTarget::DeAsPointer => cpu.registers.get_de(),
        InstructionSourceTarget::CAsPointer => 0xFF00 + cpu.registers.c as u16,
        InstructionSourceTarget::HlPlus => {
            let address = cpu.registers.get_hl();
            cpu.registers.set_hl(((address as u32 + 1) % 0x10000) as u16);
            address
        },
        _ => {
            let address = cpu.registers.get_hl();
            cpu.registers.set_hl(((address as u32 + 0xFFFF) % 0x10000) as u16);
            address
        },
    }
}

/// LD (rr), A; LD (C), A; LD (HL+), A; LD (HL-), A
pub fn ld_a_to_pointer(
    cpu: &mut CPU,
    memory: &mut Memory,
    target_pointer: InstructionSourceTarget,
)
    requires
        old(cpu).wf(),
        old(memory).wf(),
        target_pointer.is_a_pointer(),
    ensures
        final(cpu).wf(),
        final(memory).wf(),
        final(cpu)@ == advance(old(cpu)@, pointer_post(old(cpu)@.regs, target_pointer), 1),
        final(memory)@ == mem_write(
            old(memory)@,
            pointer_address(old(cpu)@.regs, target_pointer) as int,
            old(cpu)@.regs.a,
        ),
{
    let value = cpu.registers.a;
    let address = take_pointer(cpu, target_pointer);
    write_byte_to_memory(memory, address as usize, value);
    advance_pc(cpu, 1);
}

/// LD A, (rr); LD A, (C); LD A, (HL+); LD A, (HL-)
pub fn ld_pointer_to_a(cpu: &mut CPU, memory: &Memory, source_pointer: InstructionSourceTarget)
    requires
        old(cpu).wf(),
        memory.wf(),
        source_pointer.is_a_pointer(),
    ensures
        final(cpu).wf(),
        final(cpu)@ == advance(
            old(cpu)@,
            RegView {
                a: mem_read(memory@, pointer_address(old(cpu)@.regs, source_pointer) as int),
                ..pointer_post(old(cpu)@.regs, source_pointer)
            },
            1,
        ),
{
    let address = take_pointer(cpu, source_pointer);
    cpu.registers.a = read_byte_from_memory(memory, address as usize);
    advance_pc(cpu, 1);
}

/// The memory after LD (a16), SP.
pub open spec fn sp_store_mem(s: CpuView, m: Seq<u8>) -> Seq<u8> {
    mem_write(
        mem_write(m, imm16(s, m) as int, low_byte(s.sp)),
        wrap16(imm16(s, m) + 1) as int,
        high_byte(s.sp),
    )
}

/// LD (a16), SP: the low byte at a16, the high byte at a16+1.
pub fn ld_sp_to_n16(cpu: &mut CPU, memory: &mut Memory)
    requires
        old(cpu).wf(),
        old(memory).wf(),
    ensures
        final(cpu).wf(),
        final(memory).wf(),
        final(cpu)@ == advance(old(cpu)@, old(cpu)@.regs, 3),
        final(memory)@ == sp_store_mem(old(cpu)@, old(memory)@),
{
    let address: usize = get_next_bytes_little_endian(cpu, memory) as usize;
    write_byte_to_memory(memory, address, (cpu.sp % 256) as u8);
    write_byte_to_memory(memory, (address + 1) % 0x10000, (cpu.sp / 256) as u8);
    advance_pc(cpu, 3);
}

/// The state after LD HL, SP+e8.
pub open spec fn ld_hl_sp_spec(s: CpuView, m: Seq<u8>) -> CpuView {
    advance(
        s,
        RegView {
            h: high_byte(wrap16(s.sp + (imm8(s, m) as i8) + 0x10000)),
            l: low_byte(wrap16(s.sp + (imm8(s, m) as i8) + 0x10000)),
            ..s.regs
        },
        2,
    )
}

/// LD HL, SP+e8: HL receives the stack pointer plus a signed offset, modulo
/// 2^16; the stack pointer and the flags are kept.
pub fn ld_sp_and_e8_to_hl(cpu: &mut CPU, memory: &Memory)
    requires
        old(cpu).wf(),
        memory.wf(),
    ensures
        final(cpu).wf(),
        final(cpu)@ == ld_hl_sp_spec(old(cpu)@, memory@),
{
    let value: i8 = get_e8(cpu, memory);
    let sum: u32 = ((cpu.sp as i32 + value as i32 + 0x10000) % 0x10000) as u32;
    cpu.registers.set_hl(sum as u16);
    advance_pc(cpu, 2);
}

/// POP rr: the low byte from SP, the high byte from SP+1; SP rises by 2.
pub fn pop(cpu: &mut CPU, memory: &Memory, target: InstructionSourceTarget)
    requires
        old(cpu).wf(),
        memory.wf(),
        target.is_stack_pair(),
    ensures
        final(cpu).wf(),
        final(cpu)@ == pop_cpu(old(cpu)@, memory@, target),
{
    let low = read_byte_from_memory(memory, cpu.sp as usize) as u16;
    let high = read_byte_from_memory(memory, (cpu.sp as usize + 1) % 0x10000) as u16;
    let value: u16 = high * 256 + low;
    match target {
        InstructionSourceTarget::BC => cpu.registers.set_bc(value),
        InstructionSourceTarget::DE => cpu.registers.set_de(value),
        InstructionSourceTarget::HL => cpu.registers.set_hl(value),
        _ => cpu.registers.set_af(value),
    }
    cpu.sp = ((cpu.sp as u32 + 2) % 0x10000) as u16;
    advance_pc(cpu, 1);
}

/// PUSH rr: the high byte to SP-1, the low byte to SP-2; SP falls by 2.
pub fn push(cpu: &mut CPU, memory: &mut Memory, source: InstructionSourceTarget)
    requires
        old(cpu).wf(),
        old(memory).wf(),
        source.is_stack_pair(),
    ensures
        final(cpu).wf(),
        final(memory).wf(),
        final(cpu)@ == push_cpu(old(cpu)@),
        final(memory)@ == push_mem(old(cpu)@, old(memory)@, source),
{
    let value: u16 = match source {
        InstructionSourceTarget::BC => cpu.registers.get_bc(),
        InstructionSourceTarget::DE => cpu.registers.get_de(),
        InstructionSourceTarget::HL => cpu.registers.get_hl(),
        _ => cpu.registers.get_af(),
    };
    let high_address: usize = (cpu.sp as usize + 0xFFFF) % 0x10000;
    let low_address: usize = (cpu.sp as usize + 0xFFFE) % 0x10000;
    write_byte_to_memory(memory, high_address, (value / 256) as u8);
    write_byte_to_memory(memory, low_address, (value % 256) as u8);
    cpu.sp = low_address as u16;
    advance_pc(cpu, 1);
}

/// LD A, (a16)
pub fn ld_a16_to_a(cpu: &mut CPU, memory: &Memory)
    requires
        old(cpu).wf(),
        memory.wf(),
    ensures
        final(cpu).wf(),
        final(cpu)@ == advance(
            old(cpu)@,
            RegView {
                a: mem_read(memory@, imm16(old(cpu)@, memory@) as int),
                ..old(cpu)@.regs
            },
            3,
        ),
{
    let pointer = get_next_bytes_little_endian(cpu, memory) as usize;
    cpu.registers.a = read_byte_from_memory(memory, pointer);
    advance_pc(cpu, 3);
}

/// LD (a16), A
pub fn ld_a_to_a16(cpu: &mut CPU, memory: &mut Memory)
    requires
        old(cpu).wf(),
        old(memory).wf(),
    ensures
        final(cpu).wf(),
        final(memory).wf(),
        final(cpu)@ == advance(old(cpu)@, old(cpu)@.regs, 3),
        final(memory)@ == mem_write(
            old(memory)@,
            imm16(old(cpu)@, old(memory)@) as int,
            old(cpu)@.regs.a,
        ),
{
    let pointer = get_next_bytes_little_endian(cpu, memory) as usize;
    write_byte_to_memory(memory, pointer, cpu.registers.a);
    advance_pc(cpu, 3);
}

/// LDH A, (a8): reads 0xFF00 + a8.
pub fn ldh_a8_to_a(cpu: &mut CPU, memory: &Memory)
    requires
        old(cpu).wf(),
        memory.wf(),
    ensures
        final(cpu).wf(),
        final(cpu)@ == advance(
            old(cpu)@,
            RegView {
                a: mem_read(memory@, 0xFF00 + imm8(old(cpu)@, memory@)),
                ..old(cpu)@.regs
            },
            2,
        ),
{
    let pointer: usize = 0xFF00 + read_byte_from_memory(memory, pc_offset(cpu, 1)) as usize;
    cpu.registers.a = read_byte_from_memory(memory, pointer);
    advance_pc(cpu, 2);
}

/// LDH (a8), A: writes 0xFF00 + a8.
pub fn ldh_a_to_a8(cpu: &mut CPU, memory: &mut Memory)
    requires
        old(cpu).wf(),
        old(memory).wf(),
    ensures
        final(cpu).wf(),
        final(memory).wf(),
        final(cpu)@ == advance(old(cpu)@, old(cpu)@.regs, 2),
        final(memory)@ == mem_write(
            old(memory)@,
            0xFF00 + imm8(old(cpu)@, old(memory)@),
            old(cpu)@.regs.a,
        ),
{
    let pointer: usize = 0xFF00 + read_byte_from_memory(memory, pc_offset(cpu, 1)) as usize;
    write_byte_to_memory(memory, pointer, cpu.registers.a);
    advance_pc(cpu, 2);
}

/// LD SP, HL
pub fn ld_hl_to_sp(cpu: &mut CPU)
    requires
        old(cpu).wf(),
    ensures
        final(cpu).wf(),
        final(cpu)@ == (CpuView {
            sp: hl(old(cpu)@.regs),
            pc: wrap16(old(cpu)@.pc + 1),
            ..old(cpu)@
        }),
{
    cpu.sp = cpu.registers.get_hl();
    advance_pc(cpu, 1);
}

proof fn lemma_flags_byte_round_trip(r: RegView)
    ensures
        (flag_bits(r) as u8) as int == flag_bits(r),
        (flag_bits(r) as u8) & 0x80 != 0 <==> r.zf,
        (flag_bits(r) as u8) & 0x40 != 0 <==> r.nf,
        (flag_bits(r) as u8) & 0x20 != 0 <==> r.hf,
        (flag_bits(r) as u8) & 0x10 != 0 <==> r.cf,
{
    let z = r.zf;
    let n = r.nf;
    let h = r.hf;
    let c = r.cf;
    let x = flag_bits(r) as u8;
    assert(x == (if z { 0x80u8 } else { 0u8 }) + (if n { 0x40u8 } else { 0u8 }) + (if h {
        0x20u8
    } else {
        0u8
    }) + (if c { 0x10u8 } else { 0u8 }));
    assert(x == (if z { 0x80u8 } else { 0u8 }) + (if n { 0x40u8 } else { 0u8 }) + (if h {
        0x20u8
    } else {
        0u8
    }) + (if c { 0x10u8 } else { 0u8 }) ==> ((x & 0x80 != 0) == z && (x & 0x40 != 0) == n && (x
        & 0x20 != 0) == h && (x & 0x10 != 0) == c)) by (bit_vector);
}

/// A push of a register pair followed by a pop into the same pair restores
/// the registers and the stack pointer.
pub proof fn lemma_push_pop_round_trip(s: CpuView, m: Seq<u8>, t: InstructionSourceTarget)
    requires
        m.len() == MEMORY_SIZE,
        t.is_stack_pair(),
    ensures
        pop_cpu(push_cpu(s), push_mem(s, m, t), t).regs == s.regs,
        pop_cpu(push_cpu(s), push_mem(s, m, t), t).sp == s.sp,
{
    let s1 = push_cpu(s);
    let m1 = push_mem(s, m, t);
    let hi_addr = wrap16(s.sp + 0xFFFF) as int;
    let lo_addr = wrap16(s.sp + 0xFFFE) as int;
    assert(wrap16(s1.sp + 1) as int == hi_addr);
    assert(s1.sp as int == lo_addr);
    assert(echo_target(hi_addr) != echo_target(lo_addr));
    let v = pair16(s.regs, t);
    assert(stack_top(s1, m1) == v);
    if t == InstructionSourceTarget::AF {
        lemma_flags_byte_round_trip(s.regs);
    }
}

} // verus!
