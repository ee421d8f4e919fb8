//! Jump conditions of the control word.
use vstd::prelude::*;

verus! {

pub const NEVER: u32 = 0b000;

pub const EQ: u32 = 0b001;

pub const NE: u32 = 0b010;

pub const LT: u32 = 0b011;

pub const GE: u32 = 0b100;

pub const LTS: u32 = 0b101;

pub const GES: u32 = 0b110;

pub const ALWAYS: u32 = 0b111;

} // verus!
