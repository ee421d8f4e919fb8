//! What is written back to the register file.
use vstd::prelude::*;

verus! {

pub const MEMORY_READ: u32 = 0b00;

pub const ALU_RESULT: u32 = 0b01;

pub const PROGRAM_COUNTER: u32 = 0b10;

} // verus!
