//! Control function codes.
use vstd::prelude::*;

verus! {

pub const NOP: u16 = 0b0000;

pub const BREAK: u16 = 0b0001;

pub const HALT: u16 = 0b0010;

pub const ERR: u16 = 0b0011;

pub const SYS: u16 = 0b0100;

pub const SRET: u16 = 0b0101;

} // verus!
