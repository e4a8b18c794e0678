//! BRK — Force Interrupt: signals end-of-program to the loop.  It pushes
//! no state and jumps through no interrupt vector; stack and interrupt
//! infrastructure are out of scope.

use crate::interpret_result::InstructionResult;
use vstd::prelude::*;

verus! {

/// BRK — Force Interrupt.
pub struct Brk {}

impl Brk {
    /// Signal the end of the program.
    pub fn brk() -> (result: InstructionResult)
        ensures
            result == InstructionResult::EndProgram,
    {
        InstructionResult::EndProgram
    }
}

} // verus!
