//! A software model of a retro handheld console's processor core and its
//! 64KB memory-mapped address space.
//!
//! The crate provides a fetch-decode-execute engine (register file, flag-bit
//! ALU semantics, opcode tables, stack and control-flow operations) together
//! with a memory address decoder that routes every 16-bit address to exactly
//! one of nine fixed regions, two of them bank-switched.  Every public
//! operation carries a contract: instruction effects are stated bit-for-bit
//! over the register and flag model, and the address decoder's routing and
//! failure rules are stated over a byte-level view of memory.

pub mod alu;
pub mod bits;
pub mod cpu;
pub mod errors;
pub mod flags;
pub mod gameboy;
pub mod instructions;
pub mod memory;
pub mod registers;
