//! Operations of the ALU, as the control word selects them.
use vstd::prelude::*;

verus! {

pub const ADD: u32 = 0b0000;

pub const SUB: u32 = 0b0001;

pub const ADDC: u32 = 0b0010;

pub const SUBB: u32 = 0b0011;

pub const AND: u32 = 0b0100;

pub const OR: u32 = 0b0101;

pub const XOR: u32 = 0b0110;

pub const SHL: u32 = 0b0111;

pub const LSR: u32 = 0b1000;

pub const ASR: u32 = 0b1001;

pub const MOV: u32 = 0b1010;

pub const RIGHT: u32 = 0b1011;

pub const NOT: u32 = 0b1100;

pub const NEG: u32 = 0b1101;

pub const NEGB: u32 = 0b1110;

} // verus!
