//! The opcode assignment of the minimal machine: four instruction bytes.

use vstd::prelude::*;

verus! {

/// The instructions the minimal machine implements, one per assigned
/// opcode byte.
#[derive(Clone, Copy, Debug, PartialEq, Eq, Structural)]
pub enum OpCode {
    Break,
    LoadAccumulator,
    TransferAccumulatorToX,
    IncrementX,
}

/// The fixed mapping from opcode byte to instruction: 0x00 BRK, 0xA9 LDA
/// immediate, 0xAA TAX, 0xE8 INX; every other byte is unassigned.
pub open spec fn spec_decode(byte: u8) -> Option<OpCode> {
    if byte == 0x00 {
        Some(OpCode::Break)
    } else if byte == 0xA9 {
        Some(OpCode::LoadAccumulator)
    } else if byte == 0xAA {
        Some(OpCode::TransferAccumulatorToX)
    } else if byte == 0xE8 {
        Some(OpCode::IncrementX)
    } else {
        None
    }
}

impl OpCode {
    /// Look an opcode byte up in the fixed mapping; an unassigned byte is
    /// reported as `None`, distinguishable from every legitimate opcode.
    pub fn decode(byte: u8) -> (r: Option<OpCode>)
        ensures
            r == spec_decode(byte),
    {
        match byte {
            0x00 => Some(OpCode::Break),
            0xA9 => Some(OpCode::LoadAccumulator),
            0xAA => Some(OpCode::TransferAccumulatorToX),
            0xE8 => Some(OpCode::IncrementX),
            _ => None,
        }
    }
}

} // verus!
