//! Instruction decoding and register-file state for a 64-bit RISC-V core.

pub mod cpu;
