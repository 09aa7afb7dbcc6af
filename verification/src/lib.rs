//! Instruction-execution core of a Game-Boy-class 8-bit CPU emulator:
//! register file with hardware-accurate flag semantics, instruction decoder,
//! execution dispatcher with exact cycle costs, and a byte-addressable memory
//! bus with memory-mapped serial interception.

pub mod bits;
pub mod bus;
pub mod cpu;
pub mod exec;
pub mod instructions;
pub mod laws;
pub mod registers;
