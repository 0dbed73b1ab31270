//! A minimal virtual CPU: two 8-bit registers, a flags register, and a small
//! instruction set that operates on them.
//!
//! Every function is verified against a mathematical model of the processor,
//! [`cpu::CpuState`], so that each instruction's effect on registers and flags
//! is stated exactly and holds for every input.

pub mod cpu;
pub mod instructions;
