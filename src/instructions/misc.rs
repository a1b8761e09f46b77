use vstd::prelude::*;

use crate::cpu::{advance, wrap16, CpuView, CPU};
use crate::instructions::utils::advance_pc;
use crate::memory::Memory;
use crate::registers::RegView;

verus! {

/// The state after a one-byte instruction that changes nothing else.
pub open spec fn skip(s: CpuView, width: int) -> CpuView {
    CpuView { pc: wrap16(s.pc + width), ..s }
}

/// Whether decimal adjustment adds (or, after a subtraction, removes) 0x60.
pub open spec fn daa_adjusts_high(r: RegView) -> bool {
    if r.nf {
        r.cf
    } else {
        r.cf || r.a > 0x99
    }
}

/// Whether decimal adjustment adds (or, after a subtraction, removes) 0x06.
pub open spec fn daa_adjusts_low(r: RegView) -> bool {
    if r.nf {
        r.hf
    } else {
        r.hf || (r.a & 0x0F) > 0x09
    }
}

/// The accumulator after decimal adjustment.
pub open spec fn daa_result(r: RegView) -> u8 {
    let adjustment: int = (if daa_adjusts_high(r) {
        0x60int
    } else {
        0
    }) + (if daa_adjusts_low(r) {
        0x06int
    } else {
        0
    });
    if r.nf {
        ((r.a - adjustment + 256) % 256) as u8
    } else {
        ((r.a + adjustment) % 256) as u8
    }
}

/// NOP
pub fn nop(cpu: &mut CPU)
    requires
        old(cpu).wf(),
    ensures
        final(cpu).wf(),
        final(cpu)@ == skip(old(cpu)@, 1),
{
    advance_pc(cpu, 1);
}

/// STOP: the power state is not modelled; the two bytes are skipped.
pub fn stop(cpu: &mut CPU, memory: &Memory)
    requires
        old(cpu).wf(),
    ensures
        final(cpu).wf(),
        final(cpu)@ == skip(old(cpu)@, 2),
{
    advance_pc(cpu, 2);
}

/// HALT: the power state is not modelled.
pub fn halt(cpu: &mut CPU)
    requires
        old(cpu).wf(),
    ensures
        final(cpu).wf(),
        final(cpu)@ == skip(old(cpu)@, 1),
{
    advance_pc(cpu, 1);
}

/// DI: interrupts are not modelled.
pub fn di(cpu: &mut CPU)
    requires
        old(cpu).wf(),
    ensures
        final(cpu).wf(),
        final(cpu)@ == skip(old(cpu)@, 1),
{
    advance_pc(cpu, 1);
}

/// EI: interrupts are not modelled.
pub fn ei(cpu: &mut CPU)
    requires
        old(cpu).wf(),
    ensures
        final(cpu).wf(),
        final(cpu)@ == skip(old(cpu)@, 1),
{
    advance_pc(cpu, 1);
}

/// The registers after DAA.
pub open spec fn daa_spec(r: RegView) -> RegView {
    RegView { a: daa_result(r), zf: daa_result(r) == 0, hf: false, cf: daa_adjusts_high(r), ..r }
}

/// DAA: corrects the accumulator to binary-coded decimal after an addition
/// or a subtraction, as the subtract, half-carry and carry flags tell.
pub fn daa(cpu: &mut CPU)
    requires
        old(cpu).wf(),
    ensures
        final(cpu).wf(),
        final(cpu)@ == advance(old(cpu)@, daa_spec(old(cpu)@.regs), 1),
{
    let a = cpu.registers.a;
    let subtract = cpu.registers.get_flag_n();
    let half = cpu.registers.get_flag_h();
    let carry = cpu.registers.get_flag_c();
    let adjust_high = if subtract {
        carry
    } else {
        carry || a > 0x99
    };
    let adjust_low = if subtract {
        half
    } else {
        half || (a & 0x0F) > 0x09
    };
    let mut adjustment: u16 = 0;
    if adjust_high {
        adjustment = adjustment + 0x60;
    }
    if adjust_low {
        adjustment = adjustment + 0x06;
    }
    let result: u8 = if subtract {
        ((a as u16 + 256 - adjustment) % 256) as u8
    } else {
        ((a as u16 + adjustment) % 256) as u8
    };
    cpu.registers.a = result;
    cpu.registers.set_flag_z(result == 0);
    cpu.registers.set_flag_h(false);
    cpu.registers.set_flag_c(adjust_high);
    advance_pc(cpu, 1);
}

/// CPL: complements the accumulator.
pub fn cpl(cpu: &mut CPU)
    requires
        old(cpu).wf(),
    ensures
        final(cpu).wf(),
        final(cpu)@ == advance(
            old(cpu)@,
            RegView { a: old(cpu)@.regs.a ^ 0xFF, ..old(cpu)@.regs },
            1,
        ),
{
    cpu.registers.a = cpu.registers.a ^ 0xFF;
    advance_pc(cpu, 1);
}

/// SCF: sets the carry flag.
pub fn scf(cpu: &mut CPU)
    requires
        old(cpu).wf(),
    ensures
        final(cpu).wf(),
        final(cpu)@ == advance(
            old(cpu)@,
            RegView { nf: false, hf: false, cf: true, ..old(cpu)@.regs },
            1,
        ),
{
    cpu.registers.set_flag_c(true);
    cpu.registers.set_flag_h(false);
    cpu.registers.set_flag_n(false);
    advance_pc(cpu, 1);
}

/// CCF: complements the carry flag.
pub fn ccf(cpu: &mut CPU)
    requires
        old(cpu).wf(),
    ensures
        final(cpu).wf(),
        final(cpu)@ == advance(
            old(cpu)@,
            RegView { nf: false, hf: false, cf: !old(cpu)@.regs.cf, ..old(cpu)@.regs },
            1,
        ),
{
    let carry = cpu.registers.get_flag_c();
    cpu.registers.set_flag_c(!carry);
    cpu.registers.set_flag_h(false);
    cpu.registers.set_flag_n(false);
    advance_pc(cpu, 1);
}

} // verus!
