//! The full 6502 machine: every classical addressing mode, a fixed opcode
//! dispatch table, per-instruction handlers, a reset vector, and a verified
//! fetch-decode-execute loop.

pub mod address_mode;
pub mod and;
pub mod asl;
pub mod bcc;
pub mod brk;
pub mod cpu;
pub mod helpers;
pub mod instruction_set;
pub mod inx;
pub mod lda;
pub mod memory;
pub mod opcode;
pub mod ora;
pub mod semantics;
pub mod tax;
