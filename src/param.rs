//! The fixed address map of the machine and the offsets of device registers.
use vstd::prelude::*;

verus! {

/// First address of main memory.
pub const DRAM_BASE: u64 = 0x8000_0000;
/// Size of main memory in bytes.
pub const DRAM_SIZE: u64 = 0x800_0000;
/// Last address of main memory (inclusive).
pub const DRAM_END: u64 = 0x8000_0000 + 0x800_0000 - 1;

/// First address of the core-local interruptor (timer and compare register).
pub const CLINT_BASE: u64 = 0x200_0000;
/// Last address of the core-local interruptor (inclusive).
pub const CLINT_END: u64 = 0x200_0000 + 0x1_0000 - 1;
/// The timer compare register.
pub const CLINT_MTIMECMP: u64 = 0x200_0000 + 0x4000;
/// The free-running timer.
pub const CLINT_MTIME: u64 = 0x200_0000 + 0xbff8;

/// First address of the platform-level interrupt controller.
pub const PLIC_BASE: u64 = 0xc00_0000;
/// Last address of the platform-level interrupt controller (inclusive).
pub const PLIC_END: u64 = 0xc00_0000 + 0x400_0000 - 1;
/// Interrupt pending bits.
pub const PLIC_PENDING: u64 = 0xc00_0000 + 0x1000;
/// Interrupt enable bits.
pub const PLIC_SENABLE: u64 = 0xc00_0000 + 0x2080;
/// Priority threshold.
pub const PLIC_SPRIORITY: u64 = 0xc00_0000 + 0x20_1000;
/// Claim / complete register.
pub const PLIC_SCLAIM: u64 = 0xc00_0000 + 0x20_1004;

/// First address of the serial port.
pub const UART_BASE: u64 = 0x1000_0000;
/// Last address of the serial port (inclusive).
pub const UART_END: u64 = 0x1000_0000 + 0x100 - 1;
/// Receive holding register (read side of offset 0).
pub const UART_RHR: u64 = 0x1000_0000;
/// Transmit holding register (write side of offset 0).
pub const UART_THR: u64 = 0x1000_0000;
/// Line status register.
pub const UART_LSR: u64 = 0x1000_0000 + 5;
/// Line status bit: a received byte is waiting in the holding register.
pub const UART_LSR_RX: u8 = 1;
/// Line status bit: the transmitter is ready for a byte.
pub const UART_LSR_TX: u8 = 0x20;
/// Interrupt source number of the serial port at the interrupt controller.
pub const UART_IRQ: u64 = 10;

} // verus!
