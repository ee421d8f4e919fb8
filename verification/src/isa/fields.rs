//! Where each field sits in an instruction word.
use vstd::prelude::*;
use crate::isa::InstructionField;

verus! {

/// The opcode, in the low four bits.
#[verifier::allow_in_spec]
pub fn opcode() -> InstructionField
    returns
        (InstructionField { width: 4, shift: 0 }),
{
    InstructionField { width: 4, shift: 0 }
}

/// The source register.
#[verifier::allow_in_spec]
pub fn source() -> InstructionField
    returns
        (InstructionField { width: 4, shift: 12 }),
{
    InstructionField { width: 4, shift: 12 }
}

/// The destination register.
#[verifier::allow_in_spec]
pub fn destination() -> InstructionField
    returns
        (InstructionField { width: 4, shift: 8 }),
{
    InstructionField { width: 4, shift: 8 }
}

/// The function code of an ALU instruction.
#[verifier::allow_in_spec]
pub fn alu_function() -> InstructionField
    returns
        (InstructionField { width: 4, shift: 4 }),
{
    InstructionField { width: 4, shift: 4 }
}

/// The function code of an IMM instruction.
#[verifier::allow_in_spec]
pub fn imm_function() -> InstructionField
    returns
        (InstructionField { width: 4, shift: 12 }),
{
    InstructionField { width: 4, shift: 12 }
}

/// The sub-function code of an ALU instruction.
#[verifier::allow_in_spec]
pub fn sub_function() -> InstructionField
    returns
        (InstructionField { width: 4, shift: 12 }),
{
    InstructionField { width: 4, shift: 12 }
}

/// The control function code.
#[verifier::allow_in_spec]
pub fn ctrl_function() -> InstructionField
    returns
        (InstructionField { width: 4, shift: 8 }),
{
    InstructionField { width: 4, shift: 8 }
}

/// The jump kind of a JMP instruction.
#[verifier::allow_in_spec]
pub fn jump_type() -> InstructionField
    returns
        (InstructionField { width: 3, shift: 8 }),
{
    InstructionField { width: 3, shift: 8 }
}

} // verus!
