//! The control lines of the datapath and their places in the control word.
use vstd::prelude::*;

pub mod fields;
pub mod functions;
pub mod conditions;
pub mod immediate_format;
pub mod memory_read;
pub mod write_back;

verus! {

/// The register that an instruction without register operands names.
pub const DEFAULT_REGISTER: u32 = 0b0000;

/// The link register, written by jump-and-link.
pub const LINK_REGISTER: u32 = 0b1111;

/// The values of all control lines for one instruction.
pub struct ControlLines {
    pub condition: u32,
    pub register_write: bool,
    pub register_write_select: RegisterWriteSelect,
    pub left: LeftSelect,
    pub right: RightSelect,
    pub source: u32,
    pub destination: u32,
    pub immediate: u32,
    pub function: u32,
    pub memory_write: bool,
    pub memory_read: u32,
    pub write_back: u32,
}

/// The control lines of an instruction that does nothing: no jump, no
/// register or memory write.
pub open spec fn default_lines() -> ControlLines {
    ControlLines {
        condition: conditions::NEVER,
        register_write: false,
        register_write_select: RegisterWriteSelect::Destination,
        left: LeftSelect::Source,
        right: RightSelect::Destination,
        source: DEFAULT_REGISTER,
        destination: DEFAULT_REGISTER,
        immediate: immediate_format::FOUR,
        function: functions::MOV,
        memory_write: false,
        memory_read: memory_read::WORD,
        write_back: write_back::ALU_RESULT,
    }
}

impl ControlLines {
    /// Every numeric line fits the bits that the control word gives it.
    pub open spec fn wf(self) -> bool {
        &&& self.condition < 8
        &&& self.source < 16
        &&& self.destination < 16
        &&& self.immediate < 4
        &&& self.function < 16
        &&& self.memory_read < 4
        &&& self.write_back < 4
    }
}

impl Default for ControlLines {
    fn default() -> (lines: Self)
        ensures
            lines == default_lines(),
    {
        ControlLines {
            condition: conditions::NEVER,
            register_write: false,
            register_write_select: RegisterWriteSelect::Destination,
            left: LeftSelect::Source,
            right: RightSelect::Destination,
            source: DEFAULT_REGISTER,
            destination: DEFAULT_REGISTER,
            immediate: immediate_format::FOUR,
            function: functions::MOV,
            memory_write: false,
            memory_read: memory_read::WORD,
            write_back: write_back::ALU_RESULT,
        }
    }
}

/// The position of a control line in the control word.
pub struct ControlField {
    pub shift: u32,
}

/// The left ALU operand.
#[derive(Debug, Clone, Copy, PartialEq, Eq)]
pub enum LeftSelect {
    Source,
    ProgramCounter,
}

/// The right ALU operand.
#[derive(Debug, Clone, Copy, PartialEq, Eq)]
pub enum RightSelect {
    Destination,
    Immediate,
}

/// Which register field names the register that is written.
#[derive(Debug, Clone, Copy, PartialEq, Eq)]
pub enum RegisterWriteSelect {
    Destination,
    Source,
}

impl LeftSelect {
    /// The bit that encodes the selection.
    pub open spec fn bit(self) -> u32 {
        match self {
            LeftSelect::Source => 0,
            LeftSelect::ProgramCounter => 1,
        }
    }
}

impl RightSelect {
    /// The bit that encodes the selection.
    pub open spec fn bit(self) -> u32 {
        match self {
            RightSelect::Destination => 0,
            RightSelect::Immediate => 1,
        }
    }
}

impl RegisterWriteSelect {
    /// The bit that encodes the selection.
    pub open spec fn bit(self) -> u32 {
        match self {
            RegisterWriteSelect::Destination => 0,
            RegisterWriteSelect::Source => 1,
        }
    }
}

/// Each selection's bit: the first variant of each enum is 0, the second 1.
pub proof fn lemma_select_bits()
    ensures
        LeftSelect::Source.bit() == 0,
        LeftSelect::ProgramCounter.bit() == 1,
        RightSelect::Destination.bit() == 0,
        RightSelect::Immediate.bit() == 1,
        RegisterWriteSelect::Destination.bit() == 0,
        RegisterWriteSelect::Source.bit() == 1,
{
}

impl From<LeftSelect> for u32 {
    fn from(select: LeftSelect) -> (bit: u32) {
        match select {
            LeftSelect::Source => 0,
            LeftSelect::ProgramCounter => 1,
        }
    }
}

impl vstd::std_specs::convert::FromSpecImpl<LeftSelect> for u32 {
    open spec fn obeys_from_spec() -> bool {
        true
    }

    open spec fn from_spec(select: LeftSelect) -> u32 {
        select.bit()
    }
}

impl From<RightSelect> for u32 {
    fn from(select: RightSelect) -> (bit: u32) {
        match select {
            RightSelect::Destination => 0,
            RightSelect::Immediate => 1,
        }
    }
}

impl vstd::std_specs::convert::FromSpecImpl<RightSelect> for u32 {
    open spec fn obeys_from_spec() -> bool {
        true
    }

    open spec fn from_spec(select: RightSelect) -> u32 {
        select.bit()
    }
}

impl From<RegisterWriteSelect> for u32 {
    fn from(select: RegisterWriteSelect) -> (bit: u32) {
        match select {
            RegisterWriteSelect::Destination => 0,
            RegisterWriteSelect::Source => 1,
        }
    }
}

impl vstd::std_specs::convert::FromSpecImpl<RegisterWriteSelect> for u32 {
    open spec fn obeys_from_spec() -> bool {
        true
    }

    open spec fn from_spec(select: RegisterWriteSelect) -> u32 {
        select.bit()
    }
}

} // verus!
