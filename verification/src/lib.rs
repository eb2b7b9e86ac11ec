//! Core of a handheld-console emulator: an 8-bit register file with 16-bit
//! pair views, a memory bus that routes every byte access to the backing
//! store owning its address region, and a fetch-decode-execute engine that
//! runs one instruction per step and reports its cycle cost.

pub mod bitwise;
pub mod gbc;
pub mod gpu;
pub mod instructions;
pub mod memory_map;
pub mod registers;
pub mod rom;
