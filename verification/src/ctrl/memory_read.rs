//! How a memory read is widened.
use vstd::prelude::*;

verus! {

pub const SIGN_EXTEND: u32 = 0b00;

pub const WORD: u32 = 0b10;

pub const ZERO_EXTEND: u32 = 0b11;

} // verus!
