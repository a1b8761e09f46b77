use vstd::prelude::*;

use crate::registers::{RegView, Registers};

verus! {

/// The model of the execution state: the register file, the stack pointer and
/// the program counter.
pub struct CpuView {
    pub regs: RegView,
    pub sp: u16,
    pub pc: u16,
}

/// A 16-bit address or value taken modulo 2^16.
pub open spec fn wrap16(x: int) -> u16 {
    (x % 0x10000) as u16
}

/// The state after an instruction of `width` bytes that leaves `regs` behind
/// and does not jump.
pub open spec fn advance(s: CpuView, regs: RegView, width: int) -> CpuView {
    CpuView { regs, sp: s.sp, pc: wrap16(s.pc + width) }
}

pub struct CPU {
    pub registers: Registers,
    pub sp: u16,
    pub pc: u16,
}

impl View for CPU {
    type V = CpuView;

    open spec fn view(&self) -> CpuView {
        CpuView { regs: self.registers@, sp: self.sp, pc: self.pc }
    }
}

impl CPU {
    pub open spec fn wf(&self) -> bool {
        self.registers.wf()
    }
}

impl Default for CPU {
    fn default() -> (r: CPU)
        ensures
            r.wf(),
            r.sp == 0,
            r.pc == 0,
            r.registers@ == (RegView {
                a: 0,
                b: 0,
                c: 0,
                d: 0,
                e: 0,
                h: 0,
                l: 0,
                zf: false,
                nf: false,
                hf: false,
                cf: false,
            }),
    {
        CPU { registers: Registers::default(), sp: 0, pc: 0 }
    }
}

} // verus!
