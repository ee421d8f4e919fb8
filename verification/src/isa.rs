//! The instruction set: opcodes, function codes and instruction fields.
use vstd::prelude::*;

pub mod opcodes;
pub mod jumps;
pub mod functions;
pub mod sub_functions;
pub mod control_functions;
pub mod fields;

verus! {

/// A bit field of an instruction word: `width` bits starting at bit `shift`.
pub struct InstructionField {
    pub width: u16,
    pub shift: u16,
}

} // verus!
