//! A verified core for an 8-bit handheld-console emulator: CPU register file,
//! flag computation, instruction set with cycle accounting, memory management
//! unit, and the cartridge memory-bank-controller family.

pub mod alu;
pub mod alu16;
pub mod alu8;
pub mod cb;
pub mod cpu;
pub mod dispatch;
pub mod jumps;
pub mod load;
pub mod mbc;
pub mod misc;
pub mod mmu;
pub mod registers;
pub mod stack;

pub use registers::Registers;
