//! Result values surfaced by instruction handlers and by the execution loop.

use vstd::prelude::*;

verus! {

/// The outcome of executing one instruction.
///
/// `Continue` keeps the loop running, `EndProgram` halts it successfully,
/// and the two remaining variants are fatal conditions: an opcode byte with
/// no entry in the dispatch table, or a handler that asked the resolver for
/// an address under a mode that carries none (a defect in how the descriptor
/// was built, not a data-dependent error).
#[derive(Clone, Copy, Debug, PartialEq, Eq, Structural)]
pub enum InstructionResult {
    Continue,
    IllegalInstruction,
    InvalidAddressingMode,
    EndProgram,
}

/// The terminal outcome of a whole run of the execution loop.
///
/// `Success` is a successful halt; the other variants surface the fatal
/// condition that stopped the run, distinguishably, so the caller can decide
/// what to do with it.
#[derive(Clone, Copy, Debug, PartialEq, Eq, Structural)]
pub enum ProgramResult {
    Success,
    IllegalInstruction,
    InvalidAddressingMode,
}

} // verus!
