use vstd::prelude::*;

use crate::registers::RegView;

verus! {

/// The four flag conditions that gate conditional control flow.
#[derive(Clone, Copy, Debug, PartialEq, Eq, Structural)]
pub enum JpOperands {
    NZ,
    Z,
    NC,
    C,
}

/// Whether a condition holds of the flags.
pub open spec fn condition_holds(r: RegView, cond: JpOperands) -> bool {
    match cond {
        JpOperands::NZ => !r.zf,
        JpOperands::Z => r.zf,
        JpOperands::NC => !r.cf,
        JpOperands::C => r.cf,
    }
}

/// Operand designators: the source or target of an operation.
#[derive(Clone, Copy, Debug, PartialEq, Eq, Structural)]
pub enum InstructionSourceTarget {
    A,
    B,
    C,
    D,
    E,
    H,
    L,
    BC,
    DE,
    SP,
    HL,
    AF,
    HlAsPointer,
    BcAsPointer,
    DeAsPointer,
    CAsPointer,
    HlPlus,
    HlMinus,
}

impl InstructionSourceTarget {
    /// One of the seven 8-bit registers.
    pub open spec fn is_r8(self) -> bool {
        match self {
            InstructionSourceTarget::A | InstructionSourceTarget::B | InstructionSourceTarget::C
            | InstructionSourceTarget::D | InstructionSourceTarget::E | InstructionSourceTarget::H
            | InstructionSourceTarget::L => true,
            _ => false,
        }
    }

    /// An 8-bit register or the byte that HL points to.
    pub open spec fn is_operand8(self) -> bool {
        self.is_r8() || self == InstructionSourceTarget::HlAsPointer
    }

    /// A register pair or the stack pointer, as taken by 16-bit arithmetic.
    pub open spec fn is_r16(self) -> bool {
        match self {
            InstructionSourceTarget::BC | InstructionSourceTarget::DE | InstructionSourceTarget::HL
            | InstructionSourceTarget::SP => true,
            _ => false,
        }
    }

    pub fn is_r16_exec(&self) -> (r: bool)
        ensures
            r == self.is_r16(),
    {
        match self {
            InstructionSourceTarget::BC | InstructionSourceTarget::DE | InstructionSourceTarget::HL
            | InstructionSourceTarget::SP => true,
            _ => false,
        }
    }

    /// A register pair that the stack instructions take.
    pub open spec fn is_stack_pair(self) -> bool {
        match self {
            InstructionSourceTarget::BC | InstructionSourceTarget::DE | InstructionSourceTarget::HL
            | InstructionSourceTarget::AF => true,
            _ => false,
        }
    }

    /// An indirect reference that the accumulator is loaded from or stored to.
    pub open spec fn is_a_pointer(self) -> bool {
        match self {
            InstructionSourceTarget::BcAsPointer | InstructionSourceTarget::DeAsPointer
            | InstructionSourceTarget::CAsPointer | InstructionSourceTarget::HlPlus
            | InstructionSourceTarget::HlMinus => true,
            _ => false,
        }
    }
}

} // verus!
