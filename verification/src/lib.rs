//! The processor of an 8-bit game console: the opcode table, the rules by
//! which an instruction finds its operand, the instructions themselves, and
//! a tracer that writes one line for each instruction run. Timing is counted
//! in cycles; nothing here waits for a clock.

pub mod bus;
pub mod cpu;
pub mod flags;
pub mod frame;
pub mod ppu;
pub mod text;
