//! INX — Increment X Register.

use crate::interpret_result::InstructionResult;
use crate::machine::inx_applied;
use crate::mos6502::cpu::Mos6502;
use vstd::prelude::*;

verus! {

/// INX — Increment X Register.
pub struct Inx {}

impl Inx {
    /// Increment X, wrapping 0xFF to 0x00 rather than widening — a
    /// result-recompute case, not an overflow error — and recompute
    /// Zero/Negative from the result.
    pub fn inx(cpu: &mut Mos6502) -> (result: InstructionResult)
        ensures
            final(cpu)@ == inx_applied(old(cpu)@),
            result == InstructionResult::Continue,
    {
        if cpu.registers.x < 0xFF {
            cpu.registers.x = cpu.registers.x + 1;
        } else {
            cpu.registers.x = 0;
        }

        cpu.status.set_flags_for_result(cpu.registers.x);

        InstructionResult::Continue
    }
}

} // verus!
