//! Sub-function codes of the ALU instruction (0b0011 to 0b1110 are unassigned).
use vstd::prelude::*;

verus! {

pub const NOT: u16 = 0b0000;

pub const NEG: u16 = 0b0001;

pub const NEGB: u16 = 0b0010;

pub const CONTROL_FUNCTION: u16 = 0b1111;

} // verus!
