use vstd::prelude::*;

use crate::cpu::{advance, CpuView, CPU};
use crate::instructions::arithmetic::carry_value;
use crate::instructions::enums::InstructionSourceTarget;
use crate::instructions::utils::{
    advance_pc, hl, operand8, read_byte_from_memory, read_operand, read_r8, reg8, set_reg8,
    store8_mem, store8_regs, write_byte_to_memory, write_operand, write_r8,
};
use crate::memory::{mem_read, mem_write, Memory};
use crate::registers::RegView;

verus! {

/// The flags after a rotate or shift that gave `result` and moved `carry` out.
pub open spec fn shift_flags(r: RegView, result: u8, carry: bool) -> RegView {
    RegView { zf: result == 0, nf: false, hf: false, cf: carry, ..r }
}

/// The state after a two-byte rotate or shift of an 8-bit register.
pub open spec fn shifted_register(
    s: CpuView,
    t: InstructionSourceTarget,
    result: u8,
    carry: bool,
) -> CpuView {
    advance(s, shift_flags(set_reg8(s.regs, t, result), result, carry), 2)
}

/// The state after a two-byte rotate or shift of the byte at HL.
pub open spec fn shifted_memory(s: CpuView, result: u8, carry: bool) -> CpuView {
    advance(s, shift_flags(s.regs, result, carry), 2)
}

/// The byte at HL.
pub open spec fn at_hl(s: CpuView, m: Seq<u8>) -> u8 {
    mem_read(m, hl(s.regs) as int)
}

fn set_rotate_shift_flags(cpu: &mut CPU, result: u8, carry: bool)
    requires
        old(cpu).wf(),
    ensures
        final(cpu).wf(),
        final(cpu)@ == (CpuView { regs: shift_flags(old(cpu)@.regs, result, carry), ..old(cpu)@ }),
{
    cpu.registers.set_flags(result == 0, false, false, carry);
}

/// Rotates left; bit 7 goes to bit 0 and to the carry.
pub open spec fn rlc8(v: u8) -> u8 {
    ((v % 128) * 2 + v / 128) as u8
}

pub open spec fn rlc_carry(v: u8) -> bool {
    v >= 128
}

/// RLC r
pub fn rlc(cpu: &mut CPU, target: InstructionSourceTarget)
    requires
        old(cpu).wf(),
        target.is_r8(),
    ensures
        final(cpu).wf(),
        final(cpu)@ == shifted_register(
            old(cpu)@,
            target,
            rlc8(reg8(old(cpu)@.regs, target)),
            rlc_carry(reg8(old(cpu)@.regs, target)),
        ),
{
    let value = read_r8(&cpu.registers, target);
    let result = get_rlc_result_and_set_flags(cpu, value);
    write_r8(&mut cpu.registers, target, result);
    advance_pc(cpu, 2);
}

/// RLC (HL)
pub fn rlc_hl(cpu: &mut CPU, memory: &mut Memory)
    requires
        old(cpu).wf(),
        old(memory).wf(),
    ensures
        final(cpu).wf(),
        final(memory).wf(),
        final(memory)@ == mem_write(
            old(memory)@,
            hl(old(cpu)@.regs) as int,
            rlc8(at_hl(old(cpu)@, old(memory)@)),
        ),
        final(cpu)@ == shifted_memory(
            old(cpu)@,
            rlc8(at_hl(old(cpu)@, old(memory)@)),
            rlc_carry(at_hl(old(cpu)@, old(memory)@)),
        ),
{
    let address: usize = cpu.registers.get_hl() as usize;
    let value = read_byte_from_memory(memory, address);
    let result = get_rlc_result_and_set_flags(cpu, value);
    write_byte_to_memory(memory, address, result);
    advance_pc(cpu, 2);
}

fn get_rlc_result_and_set_flags(cpu: &mut CPU, v: u8) -> (r: u8)
    requires
        old(cpu).wf(),
    ensures
        r == rlc8(v),
        final(cpu).wf(),
        final(cpu)@ == (CpuView { regs: shift_flags(old(cpu)@.regs, r, rlc_carry(v)), ..old(cpu)@ }),
{
    let result: u8 = (v % 128) * 2 + v / 128;
    set_rotate_shift_flags(cpu, result, v >= 128);
    result
}

/// Rotates right; bit 0 goes to bit 7 and to the carry.
pub open spec fn rrc8(v: u8) -> u8 {
    (v / 2 + (v % 2) * 128) as u8
}

pub open spec fn rrc_carry(v: u8) -> bool {
    v % 2 == 1
}

/// RRC r
pub fn rrc(cpu: &mut CPU, target: InstructionSourceTarget)
    requires
        old(cpu).wf(),
        target.is_r8(),
    ensures
        final(cpu).wf(),
        final(cpu)@ == shifted_register(
            old(cpu)@,
            target,
            rrc8(reg8(old(cpu)@.regs, target)),
            rrc_carry(reg8(old(cpu)@.regs, target)),
        ),
{
    let value = read_r8(&cpu.registers, target);
    let result = get_rrc_result_and_set_flags(cpu, value);
    write_r8(&mut cpu.registers, target, result);
    advance_pc(cpu, 2);
}

/// RRC (HL)
pub fn rrc_hl(cpu: &mut CPU, memory: &mut Memory)
    requires
        old(cpu).wf(),
        old(memory).wf(),
    ensures
        final(cpu).wf(),
        final(memory).wf(),
        final(memory)@ == mem_write(
            old(memory)@,
            hl(old(cpu)@.regs) as int,
            rrc8(at_hl(old(cpu)@, old(memory)@)),
        ),
        final(cpu)@ == shifted_memory(
            old(cpu)@,
            rrc8(at_hl(old(cpu)@, old(memory)@)),
            rrc_carry(at_hl(old(cpu)@, old(memory)@)),
        ),
{
    let address: usize = cpu.registers.get_hl() as usize;
    let value = read_byte_from_memory(memory, address);
    let result = get_rrc_result_and_set_flags(cpu, value);
    write_byte_to_memory(memory, address, result);
    advance_pc(cpu, 2);
}

fn get_rrc_result_and_set_flags(cpu: &mut CPU, v: u8) -> (r: u8)
    requires
        old(cpu).wf(),
    ensures
        r == rrc8(v),
        final(cpu).wf(),
        final(cpu)@ == (CpuView { regs: shift_flags(old(cpu)@.regs, r, rrc_carry(v)), ..old(cpu)@ }),
{
    let result: u8 = v / 2 + (v % 2) * 128;
    set_rotate_shift_flags(cpu, result, v % 2 == 1);
    result
}

/// Rotates left through the carry: the old carry enters bit 0, bit 7 leaves to the carry.
pub open spec fn rl8(v: u8, c: bool) -> u8 {
    ((v % 128) * 2 + carry_value(c)) as u8
}

pub open spec fn rl_carry(v: u8) -> bool {
    v >= 128
}

/// RL r
pub fn rl(cpu: &mut CPU, target: InstructionSourceTarget)
    requires
        old(cpu).wf(),
        target.is_r8(),
    ensures
        final(cpu).wf(),
        final(cpu)@ == shifted_register(
            old(cpu)@,
            target,
            rl8(reg8(old(cpu)@.regs, target), old(cpu)@.regs.cf),
            rl_carry(reg8(old(cpu)@.regs, target)),
        ),
{
    let value = read_r8(&cpu.registers, target);
    let result = get_rl_result_and_set_flags(cpu, value);
    write_r8(&mut cpu.registers, target, result);
    advance_pc(cpu, 2);
}

/// RL (HL)
pub fn rl_hl(cpu: &mut CPU, memory: &mut Memory)
    requires
        old(cpu).wf(),
        old(memory).wf(),
    ensures
        final(cpu).wf(),
        final(memory).wf(),
        final(memory)@ == mem_write(
            old(memory)@,
            hl(old(cpu)@.regs) as int,
            rl8(at_hl(old(cpu)@, old(memory)@), old(cpu)@.regs.cf),
        ),
        final(cpu)@ == shifted_memory(
            old(cpu)@,
            rl8(at_hl(old(cpu)@, old(memory)@), old(cpu)@.regs.cf),
            rl_carry(at_hl(old(cpu)@, old(memory)@)),
        ),
{
    let address: usize = cpu.registers.get_hl() as usize;
    let value = read_byte_from_memory(memory, address);
    let result = get_rl_result_and_set_flags(cpu, value);
    write_byte_to_memory(memory, address, result);
    advance_pc(cpu, 2);
}

fn get_rl_result_and_set_flags(cpu: &mut CPU, v: u8) -> (r: u8)
    requires
        old(cpu).wf(),
    ensures
        r == rl8(v, old(cpu)@.regs.cf),
        final(cpu).wf(),
        final(cpu)@ == (CpuView { regs: shift_flags(old(cpu)@.regs, r, rl_carry(v)), ..old(cpu)@ }),
{
    let carry_in: u8 = if cpu.registers.get_flag_c() {
        1
    } else {
        0
    };
    let result: u8 = (v % 128) * 2 + carry_in;
    set_rotate_shift_flags(cpu, result, v >= 128);
    result
}

/// Rotates right through the carry: the old carry enters bit 7, bit 0 leaves to the carry.
pub open spec fn rr8(v: u8, c: bool) -> u8 {
    (v / 2 + carry_value(c) * 128) as u8
}

pub open spec fn rr_carry(v: u8) -> bool {
    v % 2 == 1
}

/// RR r
pub fn rr(cpu: &mut CPU, target: InstructionSourceTarget)
    requires
        old(cpu).wf(),
        target.is_r8(),
    ensures
        final(cpu).wf(),
        final(cpu)@ == shifted_register(
            old(cpu)@,
            target,
            rr8(reg8(old(cpu)@.regs, target), old(cpu)@.regs.cf),
            rr_carry(reg8(old(cpu)@.regs, target)),
        ),
{
    let value = read_r8(&cpu.registers, target);
    let result = get_rr_result_and_set_flags(cpu, value);
    write_r8(&mut cpu.registers, target, result);
    advance_pc(cpu, 2);
}

/// RR (HL)
pub fn rr_hl(cpu: &mut CPU, memory: &mut Memory)
    requires
        old(cpu).wf(),
        old(memory).wf(),
    ensures
        final(cpu).wf(),
        final(memory).wf(),
        final(memory)@ == mem_write(
            old(memory)@,
            hl(old(cpu)@.regs) as int,
            rr8(at_hl(old(cpu)@, old(memory)@), old(cpu)@.regs.cf),
        ),
        final(cpu)@ == shifted_memory(
            old(cpu)@,
            rr8(at_hl(old(cpu)@, old(memory)@), old(cpu)@.regs.cf),
            rr_carry(at_hl(old(cpu)@, old(memory)@)),
        ),
{
    let address: usize = cpu.registers.get_hl() as usize;
    let value = read_byte_from_memory(memory, address);
    let result = get_rr_result_and_set_flags(cpu, value);
    write_byte_to_memory(memory, address, result);
    advance_pc(cpu, 2);
}

fn get_rr_result_and_set_flags(cpu: &mut CPU, v: u8) -> (r: u8)
    requires
        old(cpu).wf(),
    ensures
        r == rr8(v, old(cpu)@.regs.cf),
        final(cpu).wf(),
        final(cpu)@ == (CpuView { regs: shift_flags(old(cpu)@.regs, r, rr_carry(v)), ..old(cpu)@ }),
{
    let carry_in: u8 = if cpu.registers.get_flag_c() {
        1
    } else {
        0
    };
    let result: u8 = v / 2 + carry_in * 128;
    set_rotate_shift_flags(cpu, result, v % 2 == 1);
    result
}

/// Shifts left; bit 7 leaves to the carry, bit 0 becomes 0.
pub open spec fn sla8(v: u8) -> u8 {
    ((v % 128) * 2) as u8
}

pub open spec fn sla_carry(v: u8) -> bool {
    v >= 128
}

/// SLA r
pub fn sla(cpu: &mut CPU, target: InstructionSourceTarget)
    requires
        old(cpu).wf(),
        target.is_r8(),
    ensures
        final(cpu).wf(),
        final(cpu)@ == shifted_register(
            old(cpu)@,
            target,
            sla8(reg8(old(cpu)@.regs, target)),
            sla_carry(reg8(old(cpu)@.regs, target)),
        ),
{
    let value = read_r8(&cpu.registers, target);
    let result = get_sla_result_and_set_flags(cpu, value);
    write_r8(&mut cpu.registers, target, result);
    advance_pc(cpu, 2);
}

/// SLA (HL)
pub fn sla_hl(cpu: &mut CPU, memory: &mut Memory)
    requires
        old(cpu).wf(),
        old(memory).wf(),
    ensures
        final(cpu).wf(),
        final(memory).wf(),
        final(memory)@ == mem_write(
            old(memory)@,
            hl(old(cpu)@.regs) as int,
            sla8(at_hl(old(cpu)@, old(memory)@)),
        ),
        final(cpu)@ == shifted_memory(
            old(cpu)@,
            sla8(at_hl(old(cpu)@, old(memory)@)),
            sla_carry(at_hl(old(cpu)@, old(memory)@)),
        ),
{
    let address: usize = cpu.registers.get_hl() as usize;
    let value = read_byte_from_memory(memory, address);
    let result = get_sla_result_and_set_flags(cpu, value);
    write_byte_to_memory(memory, address, result);
    advance_pc(cpu, 2);
}

fn get_sla_result_and_set_flags(cpu: &mut CPU, v: u8) -> (r: u8)
    requires
        old(cpu).wf(),
    ensures
        r == sla8(v),
        final(cpu).wf(),
        final(cpu)@ == (CpuView { regs: shift_flags(old(cpu)@.regs, r, sla_carry(v)), ..old(cpu)@ }),
{
    let result: u8 = (v % 128) * 2;
    set_rotate_shift_flags(cpu, result, v >= 128);
    result
}

/// Shifts right keeping bit 7; bit 0 leaves to the carry.
pub open spec fn sra8(v: u8) -> u8 {
    (v / 2 + (v / 128) * 128) as u8
}

pub open spec fn sra_carry(v: u8) -> bool {
    v % 2 == 1
}

/// SRA r
pub fn sra(cpu: &mut CPU, target: InstructionSourceTarget)
    requires
        old(cpu).wf(),
        target.is_r8(),
    ensures
        final(cpu).wf(),
        final(cpu)@ == shifted_register(
            old(cpu)@,
            target,
            sra8(reg8(old(cpu)@.regs, target)),
            sra_carry(reg8(old(cpu)@.regs, target)),
        ),
{
    let value = read_r8(&cpu.registers, target);
    let result = get_sra_result_and_set_flags(cpu, value);
    write_r8(&mut cpu.registers, target, result);
    advance_pc(cpu, 2);
}

/// SRA (HL)
pub fn sra_hl(cpu: &mut CPU, memory: &mut Memory)
    requires
        old(cpu).wf(),
        old(memory).wf(),
    ensures
        final(cpu).wf(),
        final(memory).wf(),
        final(memory)@ == mem_write(
            old(memory)@,
            hl(old(cpu)@.regs) as int,
            sra8(at_hl(old(cpu)@, old(memory)@)),
        ),
        final(cpu)@ == shifted_memory(
            old(cpu)@,
            sra8(at_hl(old(cpu)@, old(memory)@)),
            sra_carry(at_hl(old(cpu)@, old(memory)@)),
        ),
{
    let address: usize = cpu.registers.get_hl() as usize;
    let value = read_byte_from_memory(memory, address);
    let result = get_sra_result_and_set_flags(cpu, value);
    write_byte_to_memory(memory, address, result);
    advance_pc(cpu, 2);
}

fn get_sra_result_and_set_flags(cpu: &mut CPU, v: u8) -> (r: u8)
    requires
        old(cpu).wf(),
    ensures
        r == sra8(v),
        final(cpu).wf(),
        final(cpu)@ == (CpuView { regs: shift_flags(old(cpu)@.regs, r, sra_carry(v)), ..old(cpu)@ }),
{
    let result: u8 = v / 2 + (v / 128) * 128;
    set_rotate_shift_flags(cpu, result, v % 2 == 1);
    result
}

/// Exchanges the two nibbles; the carry is cleared.
pub open spec fn swap8(v: u8) -> u8 {
    ((v % 16) * 16 + v / 16) as u8
}

pub open spec fn swap_carry(v: u8) -> bool {
    false
}

/// SWAP r
pub fn swap(cpu: &mut CPU, target: InstructionSourceTarget)
    requires
        old(cpu).wf(),
        target.is_r8(),
    ensures
        final(cpu).wf(),
        final(cpu)@ == shifted_register(
            old(cpu)@,
            target,
            swap8(reg8(old(cpu)@.regs, target)),
            swap_carry(reg8(old(cpu)@.regs, target)),
        ),
{
    let value = read_r8(&cpu.registers, target);
    let result = get_swap_result_and_set_flags(cpu, value);
    write_r8(&mut cpu.registers, target, result);
    advance_pc(cpu, 2);
}

/// SWAP (HL)
pub fn swap_hl(cpu: &mut CPU, memory: &mut Memory)
    requires
        old(cpu).wf(),
        old(memory).wf(),
    ensures
        final(cpu).wf(),
        final(memory).wf(),
        final(memory)@ == mem_write(
            old(memory)@,
            hl(old(cpu)@.regs) as int,
            swap8(at_hl(old(cpu)@, old(memory)@)),
        ),
        final(cpu)@ == shifted_memory(
            old(cpu)@,
            swap8(at_hl(old(cpu)@, old(memory)@)),
            swap_carry(at_hl(old(cpu)@, old(memory)@)),
        ),
{
    let address: usize = cpu.registers.get_hl() as usize;
    let value = read_byte_from_memory(memory, address);
    let result = get_swap_result_and_set_flags(cpu, value);
    write_byte_to_memory(memory, address, result);
    advance_pc(cpu, 2);
}

fn get_swap_result_and_set_flags(cpu: &mut CPU, v: u8) -> (r: u8)
    requires
        old(cpu).wf(),
    ensures
        r == swap8(v),
        final(cpu).wf(),
        final(cpu)@ == (CpuView { regs: shift_flags(old(cpu)@.regs, r, swap_carry(v)), ..old(cpu)@ }),
{
    let result: u8 = (v % 16) * 16 + v / 16;
    set_rotate_shift_flags(cpu, result, false);
    result
}

/// Shifts right; bit 0 leaves to the carry, bit 7 becomes 0.
pub open spec fn srl8(v: u8) -> u8 {
    (v / 2) as u8
}

pub open spec fn srl_carry(v: u8) -> bool {
    v % 2 == 1
}

/// SRL r
pub fn srl(cpu: &mut CPU, target: InstructionSourceTarget)
    requires
        old(cpu).wf(),
        target.is_r8(),
    ensures
        final(cpu).wf(),
        final(cpu)@ == shifted_register(
            old(cpu)@,
            target,
            srl8(reg8(old(cpu)@.regs, target)),
            srl_carry(reg8(old(cpu)@.regs, target)),
        ),
{
    let value = read_r8(&cpu.registers, target);
    let result = get_srl_result_and_set_flags(cpu, value);
    write_r8(&mut cpu.registers, target, result);
    advance_pc(cpu, 2);
}

/// SRL (HL)
pub fn srl_hl(cpu: &mut CPU, memory: &mut Memory)
    requires
        old(cpu).wf(),
        old(memory).wf(),
    ensures
        final(cpu).wf(),
        final(memory).wf(),
        final(memory)@ == mem_write(
            old(memory)@,
            hl(old(cpu)@.regs) as int,
            srl8(at_hl(old(cpu)@, old(memory)@)),
        ),
        final(cpu)@ == shifted_memory(
            old(cpu)@,
            srl8(at_hl(old(cpu)@, old(memory)@)),
            srl_carry(at_hl(old(cpu)@, old(memory)@)),
        ),
{
    let address: usize = cpu.registers.get_hl() as usize;
    let value = read_byte_from_memory(memory, address);
    let result = get_srl_result_and_set_flags(cpu, value);
    write_byte_to_memory(memory, address, result);
    advance_pc(cpu, 2);
}

fn get_srl_result_and_set_flags(cpu: &mut CPU, v: u8) -> (r: u8)
    requires
        old(cpu).wf(),
    ensures
        r == srl8(v),
        final(cpu).wf(),
        final(cpu)@ == (CpuView { regs: shift_flags(old(cpu)@.regs, r, srl_carry(v)), ..old(cpu)@ }),
{
    let result: u8 = v / 2;
    set_rotate_shift_flags(cpu, result, v % 2 == 1);
    result
}

/// Whether bit `n` of `v` is clear.
pub open spec fn bit_is_zero(v: u8, n: u8) -> bool {
    v & (1u8 << n) == 0
}

/// `v` with bit `n` cleared.
pub open spec fn reset_bit(v: u8, n: u8) -> u8 {
    v & !(1u8 << n)
}

/// `v` with bit `n` set.
pub open spec fn set_bit(v: u8, n: u8) -> u8 {
    v | (1u8 << n)
}

fn bit_mask(position: u8) -> (r: u8)
    requires
        position < 8,
    ensures
        r == 1u8 << position,
{
    1u8 << position
}

/// BIT n, r: the zero flag tells whether the bit is clear; half-carry set,
/// subtract clear, carry kept; the operand is not changed.
pub fn bit(cpu: &mut CPU, memory: &Memory, register: InstructionSourceTarget, position: u8)
    requires
        old(cpu).wf(),
        memory.wf(),
        register.is_operand8(),
        position < 8,
    ensures
        final(cpu).wf(),
        final(cpu)@ == advance(
            old(cpu)@,
            RegView {
                zf: bit_is_zero(operand8(old(cpu)@.regs, memory@, register), position),
                nf: false,
                hf: true,
                ..old(cpu)@.regs
            },
            2,
        ),
{
    let value = read_operand(cpu, memory, register) & bit_mask(position);
    set_bit_flags(cpu, value == 0);
    advance_pc(cpu, 2);
}

fn set_bit_flags(cpu: &mut CPU, is_bit_zero: bool)
    requires
        old(cpu).wf(),
    ensures
        final(cpu).wf(),
        final(cpu)@ == (CpuView {
            regs: RegView { zf: is_bit_zero, nf: false, hf: true, ..old(cpu)@.regs },
            ..old(cpu)@
        }),
{
    cpu.registers.set_flag_z(is_bit_zero);
    cpu.registers.set_flag_n(false);
    cpu.registers.set_flag_h(true);
}

/// RES n, r: clears one bit; no flag changes.
pub fn res(cpu: &mut CPU, memory: &mut Memory, register: InstructionSourceTarget, position: u8)
    requires
        old(cpu).wf(),
        old(memory).wf(),
        register.is_operand8(),
        position < 8,
    ensures
        final(cpu).wf(),
        final(memory).wf(),
        final(cpu)@ == advance(
            old(cpu)@,
            store8_regs(
                old(cpu)@.regs,
                register,
                reset_bit(operand8(old(cpu)@.regs, old(memory)@, register), position),
            ),
            2,
        ),
        final(memory)@ == store8_mem(
            old(cpu)@.regs,
            old(memory)@,
            register,
            reset_bit(operand8(old(cpu)@.regs, old(memory)@, register), position),
        ),
{
    let value = read_operand(cpu, memory, register);
    let mask = bit_mask(position);
    write_operand(cpu, memory, register, value & !mask);
    advance_pc(cpu, 2);
}

/// SET n, r: sets one bit; no flag changes.
pub fn set(cpu: &mut CPU, memory: &mut Memory, register: InstructionSourceTarget, position: u8)
    requires
        old(cpu).wf(),
        old(memory).wf(),
        register.is_operand8(),
        position < 8,
    ensures
        final(cpu).wf(),
        final(memory).wf(),
        final(cpu)@ == advance(
            old(cpu)@,
            store8_regs(
                old(cpu)@.regs,
                register,
                set_bit(operand8(old(cpu)@.regs, old(memory)@, register), position),
            ),
            2,
        ),
        final(memory)@ == store8_mem(
            old(cpu)@.regs,
            old(memory)@,
            register,
            set_bit(operand8(old(cpu)@.regs, old(memory)@, register), position),
        ),
{
    let value = read_operand(cpu, memory, register);
    let mask = bit_mask(position);
    write_operand(cpu, memory, register, value | mask);
    advance_pc(cpu, 2);
}

/// The state after a one-byte rotate of the accumulator: as the two-byte
/// form, but the zero flag is always cleared.
pub open spec fn rotated_accumulator(s: CpuView, result: u8, carry: bool) -> CpuView {
    advance(s, RegView { a: result, zf: false, nf: false, hf: false, cf: carry, ..s.regs }, 1)
}

/// RLCA
pub fn rlca(cpu: &mut CPU)
    requires
        old(cpu).wf(),
    ensures
        final(cpu).wf(),
        final(cpu)@ == rotated_accumulator(
            old(cpu)@,
            rlc8(old(cpu)@.regs.a),
            rlc_carry(old(cpu)@.regs.a),
        ),
{
    let value = cpu.registers.a;
    cpu.registers.a = get_rlc_result_and_set_flags(cpu, value);
    cpu.registers.set_flag_z(false);
    advance_pc(cpu, 1);
}

/// RRCA
pub fn rrca(cpu: &mut CPU)
    requires
        old(cpu).wf(),
    ensures
        final(cpu).wf(),
        final(cpu)@ == rotated_accumulator(
            old(cpu)@,
            rrc8(old(cpu)@.regs.a),
            rrc_carry(old(cpu)@.regs.a),
        ),
{
    let value = cpu.registers.a;
    cpu.registers.a = get_rrc_result_and_set_flags(cpu, value);
    cpu.registers.set_flag_z(false);
    advance_pc(cpu, 1);
}

/// RLA
pub fn rla(cpu: &mut CPU)
    requires
        old(cpu).wf(),
    ensures
        final(cpu).wf(),
        final(cpu)@ == rotated_accumulator(
            old(cpu)@,
            rl8(old(cpu)@.regs.a, old(cpu)@.regs.cf),
            rl_carry(old(cpu)@.regs.a),
        ),
{
    let value = cpu.registers.a;
    cpu.registers.a = get_rl_result_and_set_flags(cpu, value);
    cpu.registers.set_flag_z(false);
    advance_pc(cpu, 1);
}

/// RRA
pub fn rra(cpu: &mut CPU)
    requires
        old(cpu).wf(),
    ensures
        final(cpu).wf(),
        final(cpu)@ == rotated_accumulator(
            old(cpu)@,
            rr8(old(cpu)@.regs.a, old(cpu)@.regs.cf),
            rr_carry(old(cpu)@.regs.a),
        ),
{
    let value = cpu.registers.a;
    cpu.registers.a = get_rr_result_and_set_flags(cpu, value);
    cpu.registers.set_flag_z(false);
    advance_pc(cpu, 1);
}

} // verus!
