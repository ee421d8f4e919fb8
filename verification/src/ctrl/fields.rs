//! Where each control line sits in the control word.
use vstd::prelude::*;
use crate::ctrl::ControlField;

verus! {

/// Jump condition, three bits.
#[verifier::allow_in_spec]
pub fn condition() -> ControlField
    returns
        (ControlField { shift: 0 }),
{
    ControlField { shift: 0 }
}

/// Register write enable, one bit.
#[verifier::allow_in_spec]
pub fn register_write() -> ControlField
    returns
        (ControlField { shift: 3 }),
{
    ControlField { shift: 3 }
}

/// Which register is written, one bit.
#[verifier::allow_in_spec]
pub fn register_write_select() -> ControlField
    returns
        (ControlField { shift: 4 }),
{
    ControlField { shift: 4 }
}

/// Left ALU operand, one bit.
#[verifier::allow_in_spec]
pub fn left() -> ControlField
    returns
        (ControlField { shift: 5 }),
{
    ControlField { shift: 5 }
}

/// Right ALU operand, one bit.
#[verifier::allow_in_spec]
pub fn right() -> ControlField
    returns
        (ControlField { shift: 6 }),
{
    ControlField { shift: 6 }
}

/// Source register, four bits.
#[verifier::allow_in_spec]
pub fn source() -> ControlField
    returns
        (ControlField { shift: 7 }),
{
    ControlField { shift: 7 }
}

/// Destination register, four bits.
#[verifier::allow_in_spec]
pub fn destination() -> ControlField
    returns
        (ControlField { shift: 11 }),
{
    ControlField { shift: 11 }
}

/// Immediate format, two bits.
#[verifier::allow_in_spec]
pub fn immediate() -> ControlField
    returns
        (ControlField { shift: 15 }),
{
    ControlField { shift: 15 }
}

/// ALU operation, four bits.
#[verifier::allow_in_spec]
pub fn function() -> ControlField
    returns
        (ControlField { shift: 17 }),
{
    ControlField { shift: 17 }
}

/// Memory write enable, in a two-bit slot.
#[verifier::allow_in_spec]
pub fn memory_write() -> ControlField
    returns
        (ControlField { shift: 21 }),
{
    ControlField { shift: 21 }
}

/// Memory read mode, two bits.
#[verifier::allow_in_spec]
pub fn memory_read() -> ControlField
    returns
        (ControlField { shift: 23 }),
{
    ControlField { shift: 23 }
}

/// Write-back source, two bits.
#[verifier::allow_in_spec]
pub fn write_back() -> ControlField
    returns
        (ControlField { shift: 25 }),
{
    ControlField { shift: 25 }
}

} // verus!
