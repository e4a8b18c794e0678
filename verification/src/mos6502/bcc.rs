//! The branch instruction: adds an offset to the program counter when its
//! condition holds.

use crate::interpret_result::InstructionResult;
use crate::mos6502::cpu::Mos6502;
use crate::mos6502::memory::MemoryAccess;
use crate::mos6502::semantics::bcc_sem;
use crate::status::CARRY;
use vstd::prelude::*;

verus! {

/// BCC — the branch instruction.
pub struct Bcc {}

impl Bcc {
    /// When the carry flag is set, read the one-byte offset at the program
    /// counter and add it, wrapping at 16 bits; otherwise leave the
    /// program counter exactly where the loop positioned it.  The offset
    /// is added as an unsigned value.
    pub fn bcc(cpu: &mut Mos6502) -> (result: InstructionResult)
        requires
            old(cpu)@.wf(),
        ensures
            final(cpu)@ == bcc_sem(old(cpu)@).0,
            result == bcc_sem(old(cpu)@).1,
    {
        if cpu.status.contains(CARRY) {
            let offset = cpu.memory.read(cpu.program_counter);
            cpu.program_counter = cpu.program_counter.wrapping_add(offset as u16);
        }

        InstructionResult::Continue
    }
}

} // verus!
