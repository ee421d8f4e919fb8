//! Opcodes, in the low bits of an instruction word.
use vstd::prelude::*;

verus! {

pub const ALU: u16 = 0b0000;

/// Matched against the low two bits only.
pub const LUI: u16 = 0b01;

pub const LD: u16 = 0b0010;

/// Matched against the low two bits only.
pub const AUIPC: u16 = 0b11;

pub const ST: u16 = 0b0100;

pub const LD8S: u16 = 0b0110;

pub const IMM: u16 = 0b1000;

pub const LD8: u16 = 0b1010;

pub const ST8: u16 = 0b1100;

pub const JMP: u16 = 0b1110;

} // verus!
