//! The state of the BWB16 CPU, as the emulator holds it.
use vstd::prelude::*;

verus! {

/// Sixteen 16-bit registers, the ALU flags and the privilege mode.
pub struct Cpu {
    pub _registers: [u16; 16],
    pub _carry: bool,
    pub _zero: bool,
    pub _negative: bool,
    pub _overflow: bool,
    pub _kernel: bool,
}

impl Cpu {
    /// A CPU after reset: every register zero, every flag clear, in kernel
    /// mode.
    pub fn new() -> (cpu: Self)
        ensures
            cpu._registers@ == Seq::new(16, |i: int| 0u16),
            !cpu._carry,
            !cpu._zero,
            !cpu._negative,
            !cpu._overflow,
            cpu._kernel,
    {
        let cpu = Self {
            _registers: [0; 16],
            _carry: false,
            _zero: false,
            _negative: false,
            _overflow: false,
            _kernel: true,
        };
        assert(cpu._registers@ =~= Seq::new(16, |i: int| 0u16));
        cpu
    }

    /// Runs the CPU; execution is not implemented yet, so it does nothing.
    pub fn _run(&self) {
    }
}

} // verus!
