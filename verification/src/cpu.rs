//! A minimal 6502 machine: a four-instruction interpreter over the shared
//! register, status, and memory model.

pub mod cpu;
pub mod instruction_set;
pub mod memory;
pub mod opcode;
