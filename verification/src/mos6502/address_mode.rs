//! Addressing-mode resolution: the rule locating an instruction's memory
//! operand, covering all classical forms and their wraparound quirks.

use crate::machine::{
    lemma_wrap_add16_is_mod, lemma_wrap_add8_is_mod, word_at, word_from_bytes, wrap_add16,
    wrap_add8, MachineState,
};
use crate::mos6502::cpu::Mos6502;
use crate::mos6502::memory::MemoryAccess;
use vstd::prelude::*;

verus! {

/// The closed set of addressing modes.  `Accumulator`, `Implied`, and
/// `Unresolved` carry no memory address; asking the resolver for one is a
/// configuration defect, reported as such.
#[derive(Clone, Copy, Debug, PartialEq, Eq, Structural)]
pub enum AddressMode {
    Accumulator,
    Implied,
    Immediate,
    ZeroPage,
    ZeroPageX,
    ZeroPageY,
    Absolute,
    AbsoluteX,
    AbsoluteY,
    IndirectX,
    IndirectY,
    Unresolved,
}

/// The effective address of an instruction's operand, given the machine
/// state at the point where the loop has consumed the opcode byte:
///
/// - `Immediate`: the program counter itself.
/// - `ZeroPage`: the operand byte, as an address within page 0.
/// - `ZeroPageX`/`ZeroPageY`: operand byte plus index register, wrapping
///   modulo 256 — it stays in page 0 even on overflow.
/// - `Absolute`: the 16-bit little-endian word at the program counter.
/// - `AbsoluteX`/`AbsoluteY`: that word plus the index register, wrapping
///   modulo 65536.
/// - `IndirectX`: the operand byte plus X selects a page-0 pointer, itself
///   wrapping within page 0, from which a 16-bit little-endian address is
///   read.
/// - `IndirectY`: the operand byte selects a page-0 pointer (no X offset),
///   and Y is added to the 16-bit address read there, wrapping modulo
///   65536.
/// - `Accumulator`/`Implied`/`Unresolved`: no address exists.
pub open spec fn resolve(s: MachineState, mode: AddressMode) -> Option<u16> {
    match mode {
        AddressMode::Immediate => Some(s.pc),
        AddressMode::ZeroPage => Some(s.mem[s.pc as int] as u16),
        AddressMode::ZeroPageX => Some(wrap_add8(s.mem[s.pc as int], s.x) as u16),
        AddressMode::ZeroPageY => Some(wrap_add8(s.mem[s.pc as int], s.y) as u16),
        AddressMode::Absolute => Some(word_at(s.mem, s.pc)),
        AddressMode::AbsoluteX => Some(wrap_add16(word_at(s.mem, s.pc), s.x as u16)),
        AddressMode::AbsoluteY => Some(wrap_add16(word_at(s.mem, s.pc), s.y as u16)),
        AddressMode::IndirectX => {
            let pointer = wrap_add8(s.mem[s.pc as int], s.x);
            Some(word_from_bytes(s.mem[pointer as int], s.mem[wrap_add8(pointer, 1) as int]))
        },
        AddressMode::IndirectY => {
            let base = s.mem[s.pc as int];
            let dereference_base = word_from_bytes(
                s.mem[base as int],
                s.mem[wrap_add8(base, 1) as int],
            );
            Some(wrap_add16(dereference_base, s.y as u16))
        },
        AddressMode::Accumulator => None,
        AddressMode::Implied => None,
        AddressMode::Unresolved => None,
    }
}

/// Whether a mode carries a memory address at all: resolution succeeds for
/// every machine state exactly when the mode is none of `Accumulator`,
/// `Implied`, and `Unresolved`.
pub open spec fn resolvable(mode: AddressMode) -> bool {
    !(mode matches AddressMode::Accumulator || mode matches AddressMode::Implied
        || mode matches AddressMode::Unresolved)
}

/// Resolution succeeds exactly for the resolvable modes, whatever the
/// machine state.
pub proof fn lemma_resolve_some(s: MachineState, mode: AddressMode)
    ensures
        resolve(s, mode) is Some <==> resolvable(mode),
{
}

/// The zero-page indexed forms wrap within page 0: the effective address
/// is the operand byte plus the index register modulo 256, and so never
/// leaves the range 0x00 to 0xFF, even when the 8-bit sum overflows.  The
/// absolute indexed forms wrap at 16 bits: the effective address is the
/// operand word plus the index register modulo 65536.
pub proof fn lemma_indexed_addressing_wraps(s: MachineState)
    ensures
        resolve(s, AddressMode::ZeroPageX) == Some(
            (((s.mem[s.pc as int] + s.x) % 0x100) as u16),
        ),
        resolve(s, AddressMode::ZeroPageY) == Some(
            (((s.mem[s.pc as int] + s.y) % 0x100) as u16),
        ),
        resolve(s, AddressMode::AbsoluteX) == Some(
            (((word_at(s.mem, s.pc) + s.x) % 0x10000) as u16),
        ),
        resolve(s, AddressMode::AbsoluteY) == Some(
            (((word_at(s.mem, s.pc) + s.y) % 0x10000) as u16),
        ),
{
    lemma_wrap_add8_is_mod(s.mem[s.pc as int], s.x);
    lemma_wrap_add8_is_mod(s.mem[s.pc as int], s.y);
    lemma_wrap_add16_is_mod(word_at(s.mem, s.pc), s.x as u16);
    lemma_wrap_add16_is_mod(word_at(s.mem, s.pc), s.y as u16);
}

/// Mapping an addressing-mode selector and the machine's state to an
/// effective address.
pub trait MemoryAddressing {
    /// The machine state the resolver reads.
    spec fn resolver_state(&self) -> MachineState;

    /// The effective address under `address_mode`, or `None` for the modes
    /// that carry no address.
    fn get_address(&self, address_mode: &AddressMode) -> (address: Option<u16>)
        requires
            self.resolver_state().wf(),
        ensures
            address == resolve(self.resolver_state(), *address_mode),
    ;
}

impl MemoryAddressing for Mos6502 {
    open spec fn resolver_state(&self) -> MachineState {
        self@
    }

    fn get_address(&self, address_mode: &AddressMode) -> (address: Option<u16>) {
        match address_mode {
            AddressMode::Immediate => Some(self.program_counter),
            AddressMode::ZeroPage => Some(self.memory.read(self.program_counter) as u16),
            AddressMode::ZeroPageX => {
                let pc_address = self.memory.read(self.program_counter);
                Some(pc_address.wrapping_add(self.registers.x) as u16)
            },
            AddressMode::ZeroPageY => {
                let pc_address = self.memory.read(self.program_counter);
                Some(pc_address.wrapping_add(self.registers.y) as u16)
            },
            AddressMode::Absolute => Some(self.memory.read_u16(self.program_counter)),
            AddressMode::AbsoluteX => {
                let pc_address = self.memory.read_u16(self.program_counter);
                Some(pc_address.wrapping_add(self.registers.x as u16))
            },
            AddressMode::AbsoluteY => {
                let pc_address = self.memory.read_u16(self.program_counter);
                Some(pc_address.wrapping_add(self.registers.y as u16))
            },
            AddressMode::IndirectX => {
                let base_address = self.memory.read(self.program_counter);

                let pointer = base_address.wrapping_add(self.registers.x);
                let lo = self.memory.read(pointer as u16);
                let hi = self.memory.read(pointer.wrapping_add(1) as u16);

                Some(((hi as u16) << 8) | (lo as u16))
            },
            AddressMode::IndirectY => {
                let base_address = self.memory.read(self.program_counter);

                let lo = self.memory.read(base_address as u16);
                let hi = self.memory.read(base_address.wrapping_add(1) as u16);

                let dereference_base = ((hi as u16) << 8) | (lo as u16);
                Some(dereference_base.wrapping_add(self.registers.y as u16))
            },
            AddressMode::Accumulator => None,
            AddressMode::Implied => None,
            AddressMode::Unresolved => None,
        }
    }
}

} // verus!
