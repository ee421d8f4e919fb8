//! Formats of the immediate operand.
use vstd::prelude::*;

verus! {

pub const FOUR: u32 = 0b00;

pub const SIX: u32 = 0b01;

pub const NINE: u32 = 0b10;

pub const TEN: u32 = 0b11;

} // verus!
