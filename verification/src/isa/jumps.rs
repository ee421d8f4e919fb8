//! Jump kinds of the JMP instruction.
use vstd::prelude::*;

verus! {

pub const EQ: u16 = 0b000;

pub const NE: u16 = 0b001;

pub const LT: u16 = 0b010;

pub const GE: u16 = 0b011;

pub const LTS: u16 = 0b100;

pub const GES: u16 = 0b101;

pub const JR: u16 = 0b110;

pub const JRAL: u16 = 0b111;

} // verus!
