//! A CHIP-8 interpreter core: memory, registers, call stack, opcode decoding
//! and a single-step fetch–decode–execute cycle, with every step specified
//! over a mathematical model of the machine.

pub mod cpu;
pub mod display;
pub mod laws;
pub mod memory;
pub mod opcode;
pub mod registers;
pub mod stack;
pub mod status;
pub mod storage;
