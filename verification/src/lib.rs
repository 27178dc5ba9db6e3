//! LMVC8: the core of an emulator for a fictional 8-bit console with a
//! 16-bit address space.
//!
//! The crate is organised around three subsystems: the CPU instruction
//! interpreter with its flag-producing ALU and memory-mapped interrupt
//! controller, the bus layer that decodes the 64 KiB address space and
//! accounts cycles per access, and the emulator worker state machine that
//! paces execution and multiplexes operator commands.

pub mod compiler;
pub mod console;
pub mod debugger;
pub mod disassembler;
pub mod emulator;
pub mod error;
