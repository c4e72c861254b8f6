//! The architectural state of the core: the general registers and the
//! program counter.

use vstd::prelude::*;

pub mod decoder;
pub mod defs;
pub mod encoder;
pub mod fields;

verus! {

/// The register file and the program counter.
#[derive(Debug, PartialEq, Eq)]
pub struct CPU {
    /// The general registers `x0` to `x31`.
    pub registers: [u64; 32],
    pc: u64,
}

/// What a [`CPU`] holds, as mathematical values.
pub struct CpuState {
    /// The contents of `x0` to `x31`, in this order.
    pub registers: Seq<u64>,
    /// The address of the next instruction.
    pub pc: u64,
}

impl View for CPU {
    type V = CpuState;

    closed spec fn view(&self) -> CpuState {
        CpuState { registers: self.registers@, pc: self.pc }
    }
}

impl CPU {
    /// A core in its initial state: every register and the program counter
    /// hold zero.
    pub fn new() -> (cpu: CPU)
        ensures
            cpu@.registers == Seq::new(32, |i: int| 0u64),
            cpu@.pc == 0,
    {
        let cpu = CPU { registers: [0; 32], pc: 0 };
        assert(cpu@.registers =~= Seq::new(32, |i: int| 0u64));
        cpu
    }

    /// Reads the program counter.
    pub fn pc(&self) -> (pc: u64)
        ensures
            pc == self@.pc,
    {
        self.pc
    }
}

} // verus!
