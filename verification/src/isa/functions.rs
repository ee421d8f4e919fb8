//! ALU function codes of the ALU instruction (0b1010 to 0b1100 are unassigned).
use vstd::prelude::*;

verus! {

pub const ADD: u16 = 0b0000;

pub const SUB: u16 = 0b0001;

pub const ADDC: u16 = 0b0010;

pub const SUBB: u16 = 0b0011;

pub const AND: u16 = 0b0100;

pub const OR: u16 = 0b0101;

pub const XOR: u16 = 0b0110;

pub const SHL: u16 = 0b0111;

pub const LSR: u16 = 0b1000;

pub const ASR: u16 = 0b1001;

pub const CMP: u16 = 0b1101;

pub const MOV: u16 = 0b1110;

pub const SUB_FUNCTION: u16 = 0b1111;

} // verus!
