use vstd::prelude::*;

use crate::cpu::{advance, wrap16, CpuView, CPU};
use crate::instructions::arithmetic::{self, add16_hl, add8, add_sp_spec, cp8, sub8};
use crate::instructions::bit::{
    self, bit_is_zero, reset_bit, rl8, rl_carry, rlc8, rlc_carry, rr8, rr_carry, rrc8, rrc_carry,
    rotated_accumulator, set_bit, shift_flags, sla8, sla_carry, sra8, sra_carry, srl8, srl_carry,
    swap8, swap_carry,
};
use crate::instructions::decrement::{self, dec8, dec_flags, dec_spec};
use crate::instructions::enums::{condition_holds, InstructionSourceTarget, JpOperands};
use crate::instructions::increment::{self, inc8, inc_flags, inc_spec};
use crate::instructions::jump::{self, call_cpu, call_mem, relative_target, ret_cpu};
use crate::instructions::load::{
    self, ld_hl_sp_spec, pointer_address, pointer_post, pop_cpu, push_cpu, push_mem,
    sp_store_mem,
};
use crate::instructions::logical::{self, and8, or8, xor8};
use crate::instructions::misc::{self, daa_spec, skip};
use crate::instructions::utils::{
    hl, imm16, imm8, operand8, pc_offset, r16, read_byte_from_memory, set_r16, store8_mem,
    store8_regs,
};
use crate::memory::{mem_read, mem_write, Memory};
use crate::registers::RegView;

verus! {

/// The prefix byte that selects the secondary opcode table.
pub const PREFIX_CB: u8 = 0xCB;

/// The 8-bit operand that the three-bit field `i` of an opcode names.
pub open spec fn r8_by_index(i: u8) -> InstructionSourceTarget {
    if i == 0 {
        InstructionSourceTarget::B
    } else if i == 1 {
        InstructionSourceTarget::C
    } else if i == 2 {
        InstructionSourceTarget::D
    } else if i == 3 {
        InstructionSourceTarget::E
    } else if i == 4 {
        InstructionSourceTarget::H
    } else if i == 5 {
        InstructionSourceTarget::L
    } else if i == 6 {
        InstructionSourceTarget::HlAsPointer
    } else {
        InstructionSourceTarget::A
    }
}

/// The registers after ALU operation `kind` (ADD, ADC, SUB, SBC, AND, XOR,
/// OR, CP) with operand `v`.
pub open spec fn alu_spec(kind: u8, r: RegView, v: u8) -> RegView {
    if kind == 0 {
        add8(r, v, false)
    } else if kind == 1 {
        add8(r, v, r.cf)
    } else if kind == 2 {
        sub8(r, v, false)
    } else if kind == 3 {
        sub8(r, v, r.cf)
    } else if kind == 4 {
        and8(r, v)
    } else if kind == 5 {
        xor8(r, v)
    } else if kind == 6 {
        or8(r, v)
    } else {
        cp8(r, v)
    }
}

/// The result and the carry out of rotate or shift `kind` (RLC, RRC, RL, RR,
/// SLA, SRA, SWAP, SRL).
pub open spec fn shift_spec(kind: u8, v: u8, c: bool) -> (u8, bool) {
    if kind == 0 {
        (rlc8(v), rlc_carry(v))
    } else if kind == 1 {
        (rrc8(v), rrc_carry(v))
    } else if kind == 2 {
        (rl8(v, c), rl_carry(v))
    } else if kind == 3 {
        (rr8(v, c), rr_carry(v))
    } else if kind == 4 {
        (sla8(v), sla_carry(v))
    } else if kind == 5 {
        (sra8(v), sra_carry(v))
    } else if kind == 6 {
        (swap8(v), swap_carry(v))
    } else {
        (srl8(v), srl_carry(v))
    }
}

/// The byte that a secondary opcode writes back to its operand, if any.
pub open spec fn cb_written(s: CpuView, m: Seq<u8>, op: u8) -> u8 {
    let t = r8_by_index(op % 8);
    let n = ((op / 8) % 8) as u8;
    let v = operand8(s.regs, m, t);
    if op < 0x40 {
        shift_spec(n, v, s.regs.cf).0
    } else if op < 0x80 {
        v
    } else if op < 0xC0 {
        reset_bit(v, n)
    } else {
        set_bit(v, n)
    }
}

/// The state after the secondary opcode `op`.
pub open spec fn cb_cpu(s: CpuView, m: Seq<u8>, op: u8) -> CpuView {
    let t = r8_by_index(op % 8);
    let n = ((op / 8) % 8) as u8;
    let v = operand8(s.regs, m, t);
    if op < 0x40 {
        let (res, carry) = shift_spec(n, v, s.regs.cf);
        advance(s, shift_flags(store8_regs(s.regs, t, res), res, carry), 2)
    } else if op < 0x80 {
        advance(s, RegView { zf: bit_is_zero(v, n), nf: false, hf: true, ..s.regs }, 2)
    } else {
        advance(s, store8_regs(s.regs, t, cb_written(s, m, op)), 2)
    }
}

/// The memory after the secondary opcode `op`.
pub open spec fn cb_mem(s: CpuView, m: Seq<u8>, op: u8) -> Seq<u8> {
    if 0x40 <= op < 0x80 {
        m
    } else {
        store8_mem(s.regs, m, r8_by_index(op % 8), cb_written(s, m, op))
    }
}

/// Primary opcodes that no instruction uses.
pub open spec fn is_unused_opcode(op: u8) -> bool {
    op == 0xD3 || op == 0xDB || op == 0xDD || op == 0xE3 || op == 0xE4 || op == 0xEB || op
        == 0xEC || op == 0xED || op == 0xF4 || op == 0xFC || op == 0xFD
}

/// The 16-bit operand that the two-bit field `p` names in arithmetic and
/// immediate loads.
pub open spec fn rp_by_index(p: u8) -> InstructionSourceTarget {
    if p == 0 {
        InstructionSourceTarget::BC
    } else if p == 1 {
        InstructionSourceTarget::DE
    } else if p == 2 {
        InstructionSourceTarget::HL
    } else {
        InstructionSourceTarget::SP
    }
}

/// The register pair that the two-bit field `p` names in PUSH and POP.
pub open spec fn rp2_by_index(p: u8) -> InstructionSourceTarget {
    if p == 0 {
        InstructionSourceTarget::BC
    } else if p == 1 {
        InstructionSourceTarget::DE
    } else if p == 2 {
        InstructionSourceTarget::HL
    } else {
        InstructionSourceTarget::AF
    }
}

/// The indirect reference that the two-bit field `p` names in accumulator
/// loads and stores of opcodes 0x02 to 0x3A.
pub open spec fn indirect_by_index(p: u8) -> InstructionSourceTarget {
    if p == 0 {
        InstructionSourceTarget::BcAsPointer
    } else if p == 1 {
        InstructionSourceTarget::DeAsPointer
    } else if p == 2 {
        InstructionSourceTarget::HlPlus
    } else {
        InstructionSourceTarget::HlMinus
    }
}

/// The condition that the two-bit field `c` names.
pub open spec fn cc_by_index(c: u8) -> JpOperands {
    if c == 0 {
        JpOperands::NZ
    } else if c == 1 {
        JpOperands::Z
    } else if c == 2 {
        JpOperands::NC
    } else {
        JpOperands::C
    }
}

/// The effect of INC or DEC (`up` tells which) of an 8-bit operand.
pub open spec fn step_operand8(
    s: CpuView,
    m: Seq<u8>,
    t: InstructionSourceTarget,
    up: bool,
) -> (CpuView, Seq<u8>) {
    let v = mem_read(m, hl(s.regs) as int);
    if t != InstructionSourceTarget::HlAsPointer {
        (
            if up {
                inc_spec(s, t)
            } else {
                dec_spec(s, t)
            },
            m,
        )
    } else if up {
        (advance(s, inc_flags(s.regs, inc8(v)), 1), mem_write(m, hl(s.regs) as int, inc8(v)))
    } else {
        (advance(s, dec_flags(s.regs, dec8(v)), 1), mem_write(m, hl(s.regs) as int, dec8(v)))
    }
}

/// The effect of the accumulator and flag instructions 0x07 to 0x3F, which
/// the field `y` tells apart.
pub open spec fn accumulator_spec(s: CpuView, y: u8) -> CpuView {
    let a = s.regs.a;
    if y == 0 {
        rotated_accumulator(s, rlc8(a), rlc_carry(a))
    } else if y == 1 {
        rotated_accumulator(s, rrc8(a), rrc_carry(a))
    } else if y == 2 {
        rotated_accumulator(s, rl8(a, s.regs.cf), rl_carry(a))
    } else if y == 3 {
        rotated_accumulator(s, rr8(a, s.regs.cf), rr_carry(a))
    } else if y == 4 {
        advance(s, daa_spec(s.regs), 1)
    } else if y == 5 {
        advance(s, RegView { a: a ^ 0xFF, ..s.regs }, 1)
    } else if y == 6 {
        advance(s, RegView { nf: false, hf: false, cf: true, ..s.regs }, 1)
    } else {
        advance(s, RegView { nf: false, hf: false, cf: !s.regs.cf, ..s.regs }, 1)
    }
}

/// The effect of an opcode in 0x00 to 0x3F. The opcode reads as fields
/// 00yyyzzz, with y = 2p + q.
pub open spec fn block0_spec(s: CpuView, m: Seq<u8>, op: u8) -> (CpuView, Seq<u8>) {
    let y = (op / 8) % 8;
    let z = op % 8;
    let p = y / 2;
    let q = y % 2;
    if z == 0 {
        if y == 0 {
            (skip(s, 1), m)
        } else if y == 1 {
            (advance(s, s.regs, 3), sp_store_mem(s, m))
        } else if y == 2 {
            (skip(s, 2), m)
        } else if y == 3 {
            (CpuView { pc: relative_target(s, m), ..s }, m)
        } else if condition_holds(s.regs, cc_by_index((y - 4) as u8)) {
            (CpuView { pc: relative_target(s, m), ..s }, m)
        } else {
            (skip(s, 2), m)
        }
    } else if z == 1 {
        if q == 0 {
            (CpuView { pc: wrap16(s.pc + 3), ..set_r16(s, rp_by_index(p), imm16(s, m)) }, m)
        } else {
            (advance(s, add16_hl(s.regs, r16(s, rp_by_index(p))), 1), m)
        }
    } else if z == 2 {
        let t = indirect_by_index(p);
        if q == 0 {
            (
                advance(s, pointer_post(s.regs, t), 1),
                mem_write(m, pointer_address(s.regs, t) as int, s.regs.a),
            )
        } else {
            (
                advance(
                    s,
                    RegView {
                        a: mem_read(m, pointer_address(s.regs, t) as int),
                        ..pointer_post(s.regs, t)
                    },
                    1,
                ),
                m,
            )
        }
    } else if z == 3 {
        if q == 0 {
            (inc_spec(s, rp_by_index(p)), m)
        } else {
            (dec_spec(s, rp_by_index(p)), m)
        }
    } else if z == 4 {
        step_operand8(s, m, r8_by_index(y), true)
    } else if z == 5 {
        step_operand8(s, m, r8_by_index(y), false)
    } else if z == 6 {
        (
            advance(s, store8_regs(s.regs, r8_by_index(y), imm8(s, m)), 2),
            store8_mem(s.regs, m, r8_by_index(y), imm8(s, m)),
        )
    } else {
        (accumulator_spec(s, y), m)
    }
}

/// The effect of an opcode in 0xC0 to 0xFF but the prefix. The opcode reads
/// as fields 11yyyzzz, with y = 2p + q. An unused opcode changes nothing.
pub open spec fn block3_spec(s: CpuView, m: Seq<u8>, op: u8) -> (CpuView, Seq<u8>) {
    let y = (op / 8) % 8;
    let z = op % 8;
    let p = y / 2;
    let q = y % 2;
    if is_unused_opcode(op) {
        (s, m)
    } else if z == 0 {
        if y < 4 {
            if condition_holds(s.regs, cc_by_index(y)) {
                (ret_cpu(s, m), m)
            } else {
                (skip(s, 1), m)
            }
        } else if y == 4 {
            (advance(s, s.regs, 2), mem_write(m, 0xFF00 + imm8(s, m), s.regs.a))
        } else if y == 5 {
            (add_sp_spec(s, m), m)
        } else if y == 6 {
            (advance(s, RegView { a: mem_read(m, 0xFF00 + imm8(s, m)), ..s.regs }, 2), m)
        } else {
            (ld_hl_sp_spec(s, m), m)
        }
    } else if z == 1 {
        if q == 0 {
            (pop_cpu(s, m, rp2_by_index(p)), m)
        } else if p < 2 {
            (ret_cpu(s, m), m)
        } else if p == 2 {
            (CpuView { pc: hl(s.regs), ..s }, m)
        } else {
            (CpuView { sp: hl(s.regs), pc: wrap16(s.pc + 1), ..s }, m)
        }
    } else if z == 2 {
        if y < 4 {
            if condition_holds(s.regs, cc_by_index(y)) {
                (CpuView { pc: imm16(s, m), ..s }, m)
            } else {
                (skip(s, 3), m)
            }
        } else if y == 4 {
            (
                advance(s, s.regs, 1),
                mem_write(
                    m,
                    pointer_address(s.regs, InstructionSourceTarget::CAsPointer) as int,
                    s.regs.a,
                ),
            )
        } else if y == 5 {
            (advance(s, s.regs, 3), mem_write(m, imm16(s, m) as int, s.regs.a))
        } else if y == 6 {
            (
                advance(
                    s,
                    RegView {
                        a: mem_read(
                            m,
                            pointer_address(s.regs, InstructionSourceTarget::CAsPointer) as int,
                        ),
                        ..s.regs
                    },
                    1,
                ),
                m,
            )
        } else {
            (advance(s, RegView { a: mem_read(m, imm16(s, m) as int), ..s.regs }, 3), m)
        }
    } else if z == 3 {
        if y == 0 {
            (CpuView { pc: imm16(s, m), ..s }, m)
        } else {
            (skip(s, 1), m)
        }
    } else if z == 4 || (z == 5 && q == 1) {
        if z == 5 || condition_holds(s.regs, cc_by_index(y)) {
            (call_cpu(s, imm16(s, m)), call_mem(s, m, wrap16(s.pc + 3)))
        } else {
            (skip(s, 3), m)
        }
    } else if z == 5 {
        (push_cpu(s), push_mem(s, m, rp2_by_index(p)))
    } else if z == 6 {
        (advance(s, alu_spec(y, s.regs, imm8(s, m)), 2), m)
    } else {
        (call_cpu(s, (y * 8) as u16), call_mem(s, m, wrap16(s.pc + 1)))
    }
}

/// The effect of executing the instruction at the program counter: the
/// registers, stack pointer and program counter after it, and the memory.
pub open spec fn step_spec(s: CpuView, m: Seq<u8>) -> (CpuView, Seq<u8>) {
    let op = mem_read(m, s.pc as int);
    let t = r8_by_index(op % 8);
    if op < 0x40 {
        block0_spec(s, m, op)
    } else if op == 0x76 {
        (skip(s, 1), m)
    } else if op < 0x80 {
        let v = operand8(s.regs, m, t);
        let target = r8_by_index((op / 8) % 8);
        (advance(s, store8_regs(s.regs, target, v), 1), store8_mem(s.regs, m, target, v))
    } else if op < 0xC0 {
        (advance(s, alu_spec((op / 8) % 8, s.regs, operand8(s.regs, m, t)), 1), m)
    } else if op == PREFIX_CB {
        (cb_cpu(s, m, imm8(s, m)), cb_mem(s, m, imm8(s, m)))
    } else {
        block3_spec(s, m, op)
    }
}

fn register_for_index(i: u8) -> (r: InstructionSourceTarget)
    requires
        i < 8,
    ensures
        r == r8_by_index(i),
{
    match i {
        0 => InstructionSourceTarget::B,
        1 => InstructionSourceTarget::C,
        2 => InstructionSourceTarget::D,
        3 => InstructionSourceTarget::E,
        4 => InstructionSourceTarget::H,
        5 => InstructionSourceTarget::L,
        6 => InstructionSourceTarget::HlAsPointer,
        _ => InstructionSourceTarget::A,
    }
}

/// Fetches the opcode at the program counter and executes it; the handler
/// leaves the program counter at the next instruction. Returns false, with
/// nothing changed, for an opcode that no instruction uses.
pub fn execute_instruction(cpu: &mut CPU, memory: &mut Memory) -> (r: bool)
    requires
        old(cpu).wf(),
        old(memory).wf(),
    ensures
        final(cpu).wf(),
        final(memory).wf(),
        r == !is_unused_opcode(mem_read(old(memory)@, old(cpu)@.pc as int)),
        !r ==> *final(cpu) == *old(cpu) && *final(memory) == *old(memory),
        (final(cpu)@, final(memory)@) == step_spec(old(cpu)@, old(memory)@),
{
    let op = read_byte_from_memory(memory, cpu.pc as usize);
    if op < 0x40 {
        execute_block_0(cpu, memory, op);
        true
    } else if op < 0x80 {
        if op == 0x76 {
            misc::halt(cpu);
        } else {
            ld_r8_r8(cpu, memory, op);
        }
        true
    } else if op < 0xC0 {
        alu_r8(cpu, memory, op);
        true
    } else if op == PREFIX_CB {
        execute_cb(cpu, memory);
        true
    } else {
        execute_block_3(cpu, memory, op)
    }
}

fn ld_r8_r8(cpu: &mut CPU, memory: &mut Memory, op: u8)
    requires
        old(cpu).wf(),
        old(memory).wf(),
        0x40 <= op < 0x80,
    ensures
        final(cpu).wf(),
        final(memory).wf(),
        final(cpu)@ == advance(
            old(cpu)@,
            store8_regs(
                old(cpu)@.regs,
                r8_by_index((op / 8) % 8),
                operand8(old(cpu)@.regs, old(memory)@, r8_by_index(op % 8)),
            ),
            1,
        ),
        final(memory)@ == store8_mem(
            old(cpu)@.regs,
            old(memory)@,
            r8_by_index((op / 8) % 8),
            operand8(old(cpu)@.regs, old(memory)@, r8_by_index(op % 8)),
        ),
{
    let target = register_for_index((op / 8) % 8);
    let source = register_for_index(op % 8);
    load::ld_r8_r8(cpu, memory, target, source);
}

fn alu_r8(cpu: &mut CPU, memory: &Memory, op: u8)
    requires
        old(cpu).wf(),
        memory.wf(),
        0x80 <= op < 0xC0,
    ensures
        final(cpu).wf(),
        final(cpu)@ == advance(
            old(cpu)@,
            alu_spec(
                (op / 8) % 8,
                old(cpu)@.regs,
                operand8(old(cpu)@.regs, memory@, r8_by_index(op % 8)),
            ),
            1,
        ),
{
    let source = register_for_index(op % 8);
    let kind = (op / 8) % 8;
    if source == InstructionSourceTarget::HlAsPointer {
        match kind {
            0 => arithmetic::add_hl(cpu, memory),
            1 => arithmetic::adc_hl(cpu, memory),
            2 => arithmetic::sub_hl(cpu, memory),
            3 => arithmetic::sbc_hl(cpu, memory),
            4 => logical::and_hl(cpu, memory),
            5 => logical::xor_hl(cpu, memory),
            6 => logical::or_hl(cpu, memory),
            _ => arithmetic::cp_hl(cpu, memory),
        }
    } else {
        match kind {
            0 => arithmetic::add(cpu, source),
            1 => arithmetic::adc(cpu, source),
            2 => arithmetic::sub(cpu, source),
            3 => arithmetic::sbc(cpu, source),
            4 => logical::and(cpu, source),
            5 => logical::xor(cpu, source),
            6 => logical::or(cpu, source),
            _ => arithmetic::cp(cpu, source),
        }
    }
}

/// Executes the instruction of the secondary table named by the byte after
/// the prefix.
fn execute_cb(cpu: &mut CPU, memory: &mut Memory)
    requires
        old(cpu).wf(),
        old(memory).wf(),
    ensures
        final(cpu).wf(),
        final(memory).wf(),
        final(cpu)@ == cb_cpu(old(cpu)@, old(memory)@, imm8(old(cpu)@, old(memory)@)),
        final(memory)@ == cb_mem(old(cpu)@, old(memory)@, imm8(old(cpu)@, old(memory)@)),
{
    let op = read_byte_from_memory(memory, pc_offset(cpu, 1));
    let target = register_for_index(op % 8);
    let n = (op / 8) % 8;
    if op < 0x40 {
        if target == InstructionSourceTarget::HlAsPointer {
            match n {
                0 => bit::rlc_hl(cpu, memory),
                1 => bit::rrc_hl(cpu, memory),
                2 => bit::rl_hl(cpu, memory),
                3 => bit::rr_hl(cpu, memory),
                4 => bit::sla_hl(cpu, memory),
                5 => bit::sra_hl(cpu, memory),
                6 => bit::swap_hl(cpu, memory),
                _ => bit::srl_hl(cpu, memory),
            }
        } else {
            match n {
                0 => bit::rlc(cpu, target),
                1 => bit::rrc(cpu, target),
                2 => bit::rl(cpu, target),
                3 => bit::rr(cpu, target),
                4 => bit::sla(cpu, target),
                5 => bit::sra(cpu, target),
                6 => bit::swap(cpu, target),
                _ => bit::srl(cpu, target),
            }
        }
    } else if op < 0x80 {
        bit::bit(cpu, memory, target, n);
    } else if op < 0xC0 {
        bit::res(cpu, memory, target, n);
    } else {
        bit::set(cpu, memory, target, n);
    }
}

/// Opcodes 0x00 to 0x3F.
fn execute_block_0(cpu: &mut CPU, memory: &mut Memory, op: u8)
    requires
        old(cpu).wf(),
        old(memory).wf(),
        op < 0x40,
    ensures
        final(cpu).wf(),
        final(memory).wf(),
        (final(cpu)@, final(memory)@) == block0_spec(old(cpu)@, old(memory)@, op),
{
    match op % 8 {
        0 => execute_block_0_column_0(cpu, memory, op),
        1 => execute_block_0_column_1(cpu, memory, op),
        2 => execute_block_0_column_2(cpu, memory, op),
        3 => execute_block_0_column_3(cpu, memory, op),
        4 => execute_block_0_column_4(cpu, memory, op),
        5 => execute_block_0_column_5(cpu, memory, op),
        6 => execute_block_0_column_6(cpu, memory, op),
        _ => execute_block_0_column_7(cpu, memory, op),
    }
}

fn execute_block_0_column_0(cpu: &mut CPU, memory: &mut Memory, op: u8)
    requires
        old(cpu).wf(),
        old(memory).wf(),
        op < 0x40,
        op % 8 == 0,
    ensures
        final(cpu).wf(),
        final(memory).wf(),
        (final(cpu)@, final(memory)@) == block0_spec(old(cpu)@, old(memory)@, op),
{
    match op {
        0x00 => misc::nop(cpu),
        0x08 => load::ld_sp_to_n16(cpu, memory),
        0x10 => misc::stop(cpu, memory),
        0x18 => jump::jr(cpu, memory),
        0x20 => jump::jr_with_operand(cpu, memory, JpOperands::NZ),
        0x28 => jump::jr_with_operand(cpu, memory, JpOperands::Z),
        0x30 => jump::jr_with_operand(cpu, memory, JpOperands::NC),
        _ => jump::jr_with_operand(cpu, memory, JpOperands::C),
    }
}

#[verifier::rlimit(40)]
fn execute_block_0_column_1(cpu: &mut CPU, memory: &mut Memory, op: u8)
    requires
        old(cpu).wf(),
        old(memory).wf(),
        op < 0x40,
        op % 8 == 1,
    ensures
        final(cpu).wf(),
        final(memory).wf(),
        (final(cpu)@, final(memory)@) == block0_spec(old(cpu)@, old(memory)@, op),
{
    match op {
        0x01 => load::ld_n16(cpu, memory, InstructionSourceTarget::BC),
        0x09 => arithmetic::add_to_hl(cpu, InstructionSourceTarget::BC),
        0x11 => load::ld_n16(cpu, memory, InstructionSourceTarget::DE),
        0x19 => arithmetic::add_to_hl(cpu, InstructionSourceTarget::DE),
        0x21 => load::ld_n16(cpu, memory, InstructionSourceTarget::HL),
        0x29 => arithmetic::add_to_hl(cpu, InstructionSourceTarget::HL),
        0x31 => load::ld_n16(cpu, memory, InstructionSourceTarget::SP),
        _ => arithmetic::add_to_hl(cpu, InstructionSourceTarget::SP),
    }
}

#[verifier::rlimit(40)]
fn execute_block_0_column_2(cpu: &mut CPU, memory: &mut Memory, op: u8)
    requires
        old(cpu).wf(),
        old(memory).wf(),
        op < 0x40,
        op % 8 == 2,
    ensures
        final(cpu).wf(),
        final(memory).wf(),
        (final(cpu)@, final(memory)@) == block0_spec(old(cpu)@, old(memory)@, op),
{
    match op {
        0x02 => load::ld_a_to_pointer(cpu, memory, InstructionSourceTarget::BcAsPointer),
        0x0A => load::ld_pointer_to_a(cpu, memory, InstructionSourceTarget::BcAsPointer),
        0x12 => load::ld_a_to_pointer(cpu, memory, InstructionSourceTarget::DeAsPointer),
        0x1A => load::ld_pointer_to_a(cpu, memory, InstructionSourceTarget::DeAsPointer),
        0x22 => load::ld_a_to_pointer(cpu, memory, InstructionSourceTarget::HlPlus),
        0x2A => load::ld_pointer_to_a(cpu, memory, InstructionSourceTarget::HlPlus),
        0x32 => load::ld_a_to_pointer(cpu, memory, InstructionSourceTarget::HlMinus),
        _ => load::ld_pointer_to_a(cpu, memory, InstructionSourceTarget::HlMinus),
    }
}

fn execute_block_0_column_3(cpu: &mut CPU, memory: &mut Memory, op: u8)
    requires
        old(cpu).wf(),
        old(memory).wf(),
        op < 0x40,
        op % 8 == 3,
    ensures
        final(cpu).wf(),
        final(memory).wf(),
        (final(cpu)@, final(memory)@) == block0_spec(old(cpu)@, old(memory)@, op),
{
    match op {
        0x03 => increment::inc(cpu, InstructionSourceTarget::BC),
        0x0B => decrement::dec(cpu, InstructionSourceTarget::BC),
        0x13 => increment::inc(cpu, InstructionSourceTarget::DE),
        0x1B => decrement::dec(cpu, InstructionSourceTarget::DE),
        0x23 => increment::inc(cpu, InstructionSourceTarget::HL),
        0x2B => decrement::dec(cpu, InstructionSourceTarget::HL),
        0x33 => increment::inc(cpu, InstructionSourceTarget::SP),
        _ => decrement::dec(cpu, InstructionSourceTarget::SP),
    }
}

fn execute_block_0_column_4(cpu: &mut CPU, memory: &mut Memory, op: u8)
    requires
        old(cpu).wf(),
        old(memory).wf(),
        op < 0x40,
        op % 8 == 4,
    ensures
        final(cpu).wf(),
        final(memory).wf(),
        (final(cpu)@, final(memory)@) == block0_spec(old(cpu)@, old(memory)@, op),
{
    let target = register_for_index((op / 8) % 8);
    if target == InstructionSourceTarget::HlAsPointer {
        increment::inc_r8_at_hl(cpu, memory);
    } else {
        increment::inc(cpu, target);
    }
}

fn execute_block_0_column_5(cpu: &mut CPU, memory: &mut Memory, op: u8)
    requires
        old(cpu).wf(),
        old(memory).wf(),
        op < 0x40,
        op % 8 == 5,
    ensures
        final(cpu).wf(),
        final(memory).wf(),
        (final(cpu)@, final(memory)@) == block0_spec(old(cpu)@, old(memory)@, op),
{
    let target = register_for_index((op / 8) % 8);
    if target == InstructionSourceTarget::HlAsPointer {
        decrement::dec_r8_at_hl(cpu, memory);
    } else {
        decrement::dec(cpu, target);
    }
}

fn execute_block_0_column_6(cpu: &mut CPU, memory: &mut Memory, op: u8)
    requires
        old(cpu).wf(),
        old(memory).wf(),
        op < 0x40,
        op % 8 == 6,
    ensures
        final(cpu).wf(),
        final(memory).wf(),
        (final(cpu)@, final(memory)@) == block0_spec(old(cpu)@, old(memory)@, op),
{
    let target = register_for_index((op / 8) % 8);
    load::ld_n8(cpu, memory, target);
}

fn execute_block_0_column_7(cpu: &mut CPU, memory: &mut Memory, op: u8)
    requires
        old(cpu).wf(),
        old(memory).wf(),
        op < 0x40,
        op % 8 == 7,
    ensures
        final(cpu).wf(),
        final(memory).wf(),
        (final(cpu)@, final(memory)@) == block0_spec(old(cpu)@, old(memory)@, op),
{
    match op {
        0x07 => bit::rlca(cpu),
        0x0F => bit::rrca(cpu),
        0x17 => bit::rla(cpu),
        0x1F => bit::rra(cpu),
        0x27 => misc::daa(cpu),
        0x2F => misc::cpl(cpu),
        0x37 => misc::scf(cpu),
        _ => misc::ccf(cpu),
    }
}

/// Opcodes 0xC0 to 0xFF but the prefix. Returns false, with nothing
/// changed, for an opcode that no instruction uses.
fn execute_block_3(cpu: &mut CPU, memory: &mut Memory, op: u8) -> (r: bool)
    requires
        old(cpu).wf(),
        old(memory).wf(),
        0xC0 <= op,
        op != PREFIX_CB,
    ensures
        final(cpu).wf(),
        final(memory).wf(),
        r == !is_unused_opcode(op),
        !r ==> *final(cpu) == *old(cpu) && *final(memory) == *old(memory),
        (final(cpu)@, final(memory)@) == block3_spec(old(cpu)@, old(memory)@, op),
{
    match op % 8 {
        0 => execute_block_3_column_0(cpu, memory, op),
        1 => execute_block_3_column_1(cpu, memory, op),
        2 => execute_block_3_column_2(cpu, memory, op),
        3 => execute_block_3_column_3(cpu, memory, op),
        4 => execute_block_3_column_4(cpu, memory, op),
        5 => execute_block_3_column_5(cpu, memory, op),
        6 => execute_block_3_column_6(cpu, memory, op),
        _ => execute_block_3_column_7(cpu, memory, op),
    }
}

fn execute_block_3_column_0(cpu: &mut CPU, memory: &mut Memory, op: u8) -> (r: bool)
    requires
        old(cpu).wf(),
        old(memory).wf(),
        0xC0 <= op,
        op != PREFIX_CB,
        op % 8 == 0,
    ensures
        final(cpu).wf(),
        final(memory).wf(),
        r == !is_unused_opcode(op),
        !r ==> *final(cpu) == *old(cpu) && *final(memory) == *old(memory),
        (final(cpu)@, final(memory)@) == block3_spec(old(cpu)@, old(memory)@, op),
{
    match op {
        0xC0 => jump::ret_with_operand(cpu, memory, JpOperands::NZ),
        0xC8 => jump::ret_with_operand(cpu, memory, JpOperands::Z),
        0xD0 => jump::ret_with_operand(cpu, memory, JpOperands::NC),
        0xD8 => jump::ret_with_operand(cpu, memory, JpOperands::C),
        0xE0 => load::ldh_a_to_a8(cpu, memory),
        0xE8 => arithmetic::add_to_sp(cpu, memory),
        0xF0 => load::ldh_a8_to_a(cpu, memory),
        _ => load::ld_sp_and_e8_to_hl(cpu, memory),
    }
    true
}

fn execute_block_3_column_1(cpu: &mut CPU, memory: &mut Memory, op: u8) -> (r: bool)
    requires
        old(cpu).wf(),
        old(memory).wf(),
        0xC0 <= op,
        op != PREFIX_CB,
        op % 8 == 1,
    ensures
        final(cpu).wf(),
        final(memory).wf(),
        r == !is_unused_opcode(op),
        !r ==> *final(cpu) == *old(cpu) && *final(memory) == *old(memory),
        (final(cpu)@, final(memory)@) == block3_spec(old(cpu)@, old(memory)@, op),
{
    match op {
        0xC1 => load::pop(cpu, memory, InstructionSourceTarget::BC),
        0xC9 => jump::ret(cpu, memory),
        0xD1 => load::pop(cpu, memory, InstructionSourceTarget::DE),
        0xD9 => jump::reti(cpu, memory),
        0xE1 => load::pop(cpu, memory, InstructionSourceTarget::HL),
        0xE9 => jump::jp_hl(cpu),
        0xF1 => load::pop(cpu, memory, InstructionSourceTarget::AF),
        _ => load::ld_hl_to_sp(cpu),
    }
    true
}

fn execute_block_3_column_2(cpu: &mut CPU, memory: &mut Memory, op: u8) -> (r: bool)
    requires
        old(cpu).wf(),
        old(memory).wf(),
        0xC0 <= op,
        op != PREFIX_CB,
        op % 8 == 2,
    ensures
        final(cpu).wf(),
        final(memory).wf(),
        r == !is_unused_opcode(op),
        !r ==> *final(cpu) == *old(cpu) && *final(memory) == *old(memory),
        (final(cpu)@, final(memory)@) == block3_spec(old(cpu)@, old(memory)@, op),
{
    match op {
        0xC2 => jump::jp_with_operand(cpu, memory, JpOperands::NZ),
        0xCA => jump::jp_with_operand(cpu, memory, JpOperands::Z),
        0xD2 => jump::jp_with_operand(cpu, memory, JpOperands::NC),
        0xDA => jump::jp_with_operand(cpu, memory, JpOperands::C),
        0xE2 => load::ld_a_to_pointer(cpu, memory, InstructionSourceTarget::CAsPointer),
        0xEA => load::ld_a_to_a16(cpu, memory),
        0xF2 => load::ld_pointer_to_a(cpu, memory, InstructionSourceTarget::CAsPointer),
        _ => load::ld_a16_to_a(cpu, memory),
    }
    true
}

fn execute_block_3_column_3(cpu: &mut CPU, memory: &mut Memory, op: u8) -> (r: bool)
    requires
        old(cpu).wf(),
        old(memory).wf(),
        0xC0 <= op,
        op != PREFIX_CB,
        op % 8 == 3,
    ensures
        final(cpu).wf(),
        final(memory).wf(),
        r == !is_unused_opcode(op),
        !r ==> *final(cpu) == *old(cpu) && *final(memory) == *old(memory),
        (final(cpu)@, final(memory)@) == block3_spec(old(cpu)@, old(memory)@, op),
{
    match op {
        0xC3 => jump::jp(cpu, memory),
        0xF3 => misc::di(cpu),
        0xFB => misc::ei(cpu),
        _ => {
            return false;
        },
    }
    true
}

fn execute_block_3_column_4(cpu: &mut CPU, memory: &mut Memory, op: u8) -> (r: bool)
    requires
        old(cpu).wf(),
        old(memory).wf(),
        0xC0 <= op,
        op != PREFIX_CB,
        op % 8 == 4,
    ensures
        final(cpu).wf(),
        final(memory).wf(),
        r == !is_unused_opcode(op),
        !r ==> *final(cpu) == *old(cpu) && *final(memory) == *old(memory),
        (final(cpu)@, final(memory)@) == block3_spec(old(cpu)@, old(memory)@, op),
{
    match op {
        0xC4 => jump::call_with_operand(cpu, memory, JpOperands::NZ),
        0xCC => jump::call_with_operand(cpu, memory, JpOperands::Z),
        0xD4 => jump::call_with_operand(cpu, memory, JpOperands::NC),
        0xDC => jump::call_with_operand(cpu, memory, JpOperands::C),
        _ => {
            return false;
        },
    }
    true
}

fn execute_block_3_column_5(cpu: &mut CPU, memory: &mut Memory, op: u8) -> (r: bool)
    requires
        old(cpu).wf(),
        old(memory).wf(),
        0xC0 <= op,
        op != PREFIX_CB,
        op % 8 == 5,
    ensures
        final(cpu).wf(),
        final(memory).wf(),
        r == !is_unused_opcode(op),
        !r ==> *final(cpu) == *old(cpu) && *final(memory) == *old(memory),
        (final(cpu)@, final(memory)@) == block3_spec(old(cpu)@, old(memory)@, op),
{
    match op {
        0xC5 => load::push(cpu, memory, InstructionSourceTarget::BC),
        0xCD => jump::call(cpu, memory),
        0xD5 => load::push(cpu, memory, InstructionSourceTarget::DE),
        0xE5 => load::push(cpu, memory, InstructionSourceTarget::HL),
        0xF5 => load::push(cpu, memory, InstructionSourceTarget::AF),
        _ => {
            return false;
        },
    }
    true
}

fn execute_block_3_column_6(cpu: &mut CPU, memory: &mut Memory, op: u8) -> (r: bool)
    requires
        old(cpu).wf(),
        old(memory).wf(),
        0xC0 <= op,
        op != PREFIX_CB,
        op % 8 == 6,
    ensures
        final(cpu).wf(),
        final(memory).wf(),
        r == !is_unused_opcode(op),
        !r ==> *final(cpu) == *old(cpu) && *final(memory) == *old(memory),
        (final(cpu)@, final(memory)@) == block3_spec(old(cpu)@, old(memory)@, op),
{
    match op {
        0xC6 => arithmetic::add_n8(cpu, memory),
        0xCE => arithmetic::adc_n8(cpu, memory),
        0xD6 => arithmetic::sub_n8(cpu, memory),
        0xDE => arithmetic::sbc_n8(cpu, memory),
        0xE6 => logical::and_n8(cpu, memory),
        0xEE => logical::xor_n8(cpu, memory),
        0xF6 => logical::or_n8(cpu, memory),
        _ => arithmetic::cp_n8(cpu, memory),
    }
    true
}

fn execute_block_3_column_7(cpu: &mut CPU, memory: &mut Memory, op: u8) -> (r: bool)
    requires
        old(cpu).wf(),
        old(memory).wf(),
        0xC0 <= op,
        op != PREFIX_CB,
        op % 8 == 7,
    ensures
        final(cpu).wf(),
        final(memory).wf(),
        r == !is_unused_opcode(op),
        !r ==> *final(cpu) == *old(cpu) && *final(memory) == *old(memory),
        (final(cpu)@, final(memory)@) == block3_spec(old(cpu)@, old(memory)@, op),
{
    match op {
        0xC7 => jump::rst(cpu, memory, 0x00),
        0xCF => jump::rst(cpu, memory, 0x08),
        0xD7 => jump::rst(cpu, memory, 0x10),
        0xDF => jump::rst(cpu, memory, 0x18),
        0xE7 => jump::rst(cpu, memory, 0x20),
        0xEF => jump::rst(cpu, memory, 0x28),
        0xF7 => jump::rst(cpu, memory, 0x30),
        _ => jump::rst(cpu, memory, 0x38),
    }
    true
}

} // verus!
