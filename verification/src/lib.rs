//! A verified interpreter core for the MOS 6502 8-bit microprocessor.
//!
//! The crate models a fetch-decode-execute loop over three 8-bit registers,
//! a packed status-flag byte, a 16-bit program counter, and a flat 64 KiB
//! address space.  Every public operation carries a contract stated over a
//! mathematical machine state, and the execution loops are proved to follow
//! a specification-level step function exactly, including the documented
//! hardware quirks: 8-bit wraparound inside zero-page addressing, 16-bit
//! wraparound for absolute addressing, and fresh recomputation of the Zero
//! and Negative flags by every data-producing instruction.

pub mod cpu;
pub mod interpret_result;
pub mod machine;
pub mod mos6502;
pub mod status;
