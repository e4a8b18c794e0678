//! The register-transfer semantics of the minimal instruction set, and the
//! trait an implementing machine provides.

use crate::machine::{inx_applied, lda_applied, tax_applied, MachineState};
use vstd::prelude::*;

verus! {

/// The register-only instructions of the minimal machine.  Each handler is
/// a pure transition over the implementor's machine state; none of them
/// touches memory or the program counter.
pub trait InstructionSet6502 {
    /// The machine state the implementor carries.
    spec fn isa_state(&self) -> MachineState;

    /// LDA — load the accumulator.
    fn lda(&mut self, param: u8)
        ensures
            final(self).isa_state() == lda_applied(old(self).isa_state(), param),
    ;

    /// TAX — transfer the accumulator to X.
    fn tax(&mut self)
        ensures
            final(self).isa_state() == tax_applied(old(self).isa_state()),
    ;

    /// INX — increment X, wrapping within eight bits.
    fn inx(&mut self)
        ensures
            final(self).isa_state() == inx_applied(old(self).isa_state()),
    ;
}

} // verus!
