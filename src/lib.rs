//! A verified emulator core for a 64-bit RISC-V machine: the RV64I base
//! integer set with the multiply instruction, a machine-mode trap model, and a
//! bus that routes every access to memory or to a memory-mapped device.

pub mod param;
pub mod exception;
pub mod dram;
pub mod clint;
pub mod plic;
pub mod uart;
pub mod bus;
pub mod isa;
pub mod csr;
pub mod cpu;
pub mod regname;
