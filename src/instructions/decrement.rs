use vstd::prelude::*;

use crate::cpu::{advance, wrap16, CpuView, CPU};
use crate::instructions::enums::InstructionSourceTarget;
use crate::instructions::increment::inc8;
use crate::instructions::utils::{
    advance_pc, hl, r16, read_byte_from_memory, read_r16, read_r8, reg8, set_r16, set_reg8,
    write_byte_to_memory, write_r16, write_r8,
};
use crate::memory::{mem_read, mem_write, Memory};
use crate::registers::RegView;

verus! {

/// An 8-bit value minus one, modulo 256.
pub open spec fn dec8(v: u8) -> u8 {
    ((v + 255) % 256) as u8
}

/// The flags after an 8-bit decrement that gave `result`: half-carry when the
/// low nibble borrowed (wrapped to 0xF); the carry flag is kept.
pub open spec fn dec_flags(r: RegView, result: u8) -> RegView {
    RegView { zf: result == 0, nf: true, hf: result & 0x0F == 0x0F, ..r }
}

/// The state after DEC of an 8-bit register or of a 16-bit pair.
pub open spec fn dec_spec(s: CpuView, t: InstructionSourceTarget) -> CpuView {
    if t.is_r8() {
        let result = dec8(reg8(s.regs, t));
        advance(s, dec_flags(set_reg8(s.regs, t, result), result), 1)
    } else {
        CpuView { pc: wrap16(s.pc + 1), ..set_r16(s, t, wrap16(r16(s, t) + 0xFFFF)) }
    }
}

/// DEC r / DEC rr
pub fn dec(cpu: &mut CPU, target: InstructionSourceTarget)
    requires
        old(cpu).wf(),
        target.is_r8() || target.is_r16(),
    ensures
        final(cpu).wf(),
        final(cpu)@ == dec_spec(old(cpu)@, target),
{
    if target.is_r16_exec() {
        let value = read_r16(cpu, target);
        write_r16(cpu, target, get_new_value_after_dec_u16(value));
    } else {
        dec_r8(cpu, target);
    }
    advance_pc(cpu, 1);
}

/// DEC (HL)
pub fn dec_r8_at_hl(cpu: &mut CPU, memory: &mut Memory)
    requires
        old(cpu).wf(),
        old(memory).wf(),
    ensures
        final(cpu).wf(),
        final(memory).wf(),
        final(memory)@ == mem_write(
            old(memory)@,
            hl(old(cpu)@.regs) as int,
            dec8(mem_read(old(memory)@, hl(old(cpu)@.regs) as int)),
        ),
        final(cpu)@ == advance(
            old(cpu)@,
            dec_flags(old(cpu)@.regs, dec8(mem_read(old(memory)@, hl(old(cpu)@.regs) as int))),
            1,
        ),
{
    let address: usize = cpu.registers.get_hl() as usize;
    let new_value = get_new_value_after_dec(read_byte_from_memory(memory, address));
    write_byte_to_memory(memory, address, new_value);
    set_dec_flags(new_value, cpu);
    advance_pc(cpu, 1);
}

fn dec_r8(cpu: &mut CPU, target: InstructionSourceTarget)
    requires
        old(cpu).wf(),
        target.is_r8(),
    ensures
        final(cpu).wf(),
        final(cpu)@ == (CpuView {
            regs: dec_flags(
                set_reg8(old(cpu)@.regs, target, dec8(reg8(old(cpu)@.regs, target))),
                dec8(reg8(old(cpu)@.regs, target)),
            ),
            ..old(cpu)@
        }),
{
    let new_value = get_new_value_after_dec(read_r8(&cpu.registers, target));
    write_r8(&mut cpu.registers, target, new_value);
    set_dec_flags(new_value, cpu);
}

fn get_new_value_after_dec(original_value: u8) -> (r: u8)
    ensures
        r == dec8(original_value),
{
    if original_value == 0 {
        u8::MAX
    } else {
        original_value - 1
    }
}

fn get_new_value_after_dec_u16(original_value: u16) -> (r: u16)
    ensures
        r == wrap16(original_value + 0xFFFF),
{
    if original_value == 0 {
        u16::MAX
    } else {
        original_value - 1
    }
}

fn set_dec_flags(new_value: u8, cpu: &mut CPU)
    requires
        old(cpu).wf(),
    ensures
        final(cpu).wf(),
        final(cpu)@ == (CpuView { regs: dec_flags(old(cpu)@.regs, new_value), ..old(cpu)@ }),
{
    cpu.registers.set_flag_z(new_value == 0);
    cpu.registers.set_flag_n(true);
    cpu.registers.set_flag_h((new_value & 0x0F) == 0x0F);
}

/// On 8-bit values decrement and increment undo each other, with wraparound
/// between 0 and 255.
pub proof fn lemma_dec_inc_round_trip(v: u8)
    ensures
        inc8(dec8(v)) == v,
        dec8(inc8(v)) == v,
{
}

} // verus!
