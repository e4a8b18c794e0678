//! The mathematical model of the machine: registers, flags, program counter,
//! and the 64 KiB address space, together with the wrapping address
//! arithmetic and little-endian word access that every contract speaks of.

use crate::status::{flag_set, flags_for_result, lemma_flags_for_result, NEGATIVE, ZERO};
use vstd::arithmetic::div_mod::{lemma_mod_add_multiples_vanish, lemma_small_mod};
use vstd::prelude::*;

verus! {

/// Number of addressable bytes: every 16-bit address value is valid.
pub const MEMORY_SIZE: usize = 0x10000;

/// The complete observable state of an emulated machine: the accumulator,
/// the two index registers, the packed status flags, the 16-bit program
/// counter, and the full address space.
///
/// Executable code holds the same data in `Registers`, `Status`, and
/// `Memory` values; its contracts are stated over this model.
pub struct MachineState {
    pub a: u8,
    pub x: u8,
    pub y: u8,
    pub flags: u8,
    pub pc: u16,
    pub mem: Seq<u8>,
}

impl MachineState {
    /// A machine state is well formed when it models the whole address space.
    pub open spec fn wf(self) -> bool {
        self.mem.len() == MEMORY_SIZE
    }
}

/// The address space before anything is written: every byte zero.
pub open spec fn all_zero_mem() -> Seq<u8> {
    Seq::new(MEMORY_SIZE as nat, |i: int| 0u8)
}

/// The state of a freshly constructed machine: registers and flags zero,
/// program counter zero, memory cleared.
pub open spec fn initial_state() -> MachineState {
    MachineState { a: 0, x: 0, y: 0, flags: 0, pc: 0, mem: all_zero_mem() }
}

/// 8-bit addition wrapping within one page: the sum modulo 256.
pub open spec fn wrap_add8(x: u8, y: u8) -> u8 {
    if x + y > 0xFF {
        (x + y - 0x100) as u8
    } else {
        (x + y) as u8
    }
}

/// 16-bit addition wrapping at the top of the address space: the sum
/// modulo 65536.
pub open spec fn wrap_add16(x: u16, y: u16) -> u16 {
    if x + y > 0xFFFF {
        (x + y - 0x10000) as u16
    } else {
        (x + y) as u16
    }
}

/// `wrap_add8` computes the sum modulo 256, and so always stays in page 0
/// when widened to an address.
pub proof fn lemma_wrap_add8_is_mod(x: u8, y: u8)
    ensures
        wrap_add8(x, y) == (x + y) % 0x100,
        wrap_add8(x, y) <= 0xFF,
{
    if x + y > 0xFF {
        lemma_mod_add_multiples_vanish(x + y - 0x100, 0x100);
        lemma_small_mod((x + y - 0x100) as nat, 0x100);
    } else {
        lemma_small_mod((x + y) as nat, 0x100);
    }
}

/// `wrap_add16` computes the sum modulo 65536.
pub proof fn lemma_wrap_add16_is_mod(x: u16, y: u16)
    ensures
        wrap_add16(x, y) == (x + y) % 0x10000,
{
    if x + y > 0xFFFF {
        lemma_mod_add_multiples_vanish(x + y - 0x10000, 0x10000);
        lemma_small_mod((x + y - 0x10000) as nat, 0x10000);
    } else {
        lemma_small_mod((x + y) as nat, 0x10000);
    }
}

/// The 16-bit word formed from a low and a high byte, little endian.
pub open spec fn word_from_bytes(lo: u8, hi: u8) -> u16 {
    ((hi as u16) << 8) | (lo as u16)
}

/// The low byte of a 16-bit word.
pub open spec fn low_byte(w: u16) -> u8 {
    (w & 0xFF) as u8
}

/// The high byte of a 16-bit word.
pub open spec fn high_byte(w: u16) -> u8 {
    (w >> 8) as u8
}

/// The little-endian word stored at `addr`; the second byte is read at
/// `addr + 1` wrapping at the 16-bit boundary.
pub open spec fn word_at(mem: Seq<u8>, addr: u16) -> u16 {
    word_from_bytes(mem[addr as int], mem[wrap_add16(addr, 1) as int])
}

/// The memory after a little-endian word write at `addr`: the low byte at
/// `addr`, the high byte at `addr + 1` wrapping at the 16-bit boundary.
pub open spec fn word_written(mem: Seq<u8>, addr: u16, w: u16) -> Seq<u8> {
    mem.update(addr as int, low_byte(w)).update(wrap_add16(addr, 1) as int, high_byte(w))
}

/// The memory after a block of bytes is copied in starting at `start`.
pub open spec fn slice_written(mem: Seq<u8>, start: u16, data: Seq<u8>) -> Seq<u8> {
    Seq::new(
        mem.len(),
        |i: int|
            if start as int <= i && i < start as int + data.len() {
                data[i - start as int]
            } else {
                mem[i]
            },
    )
}

/// The machine state after LDA: the accumulator holds `value` and
/// Zero/Negative are recomputed from it; nothing else changes.
pub open spec fn lda_applied(s: MachineState, value: u8) -> MachineState {
    MachineState { a: value, flags: flags_for_result(s.flags, value), ..s }
}

/// The machine state after TAX: the X register holds a copy of the
/// accumulator and Zero/Negative are recomputed from X's new value only.
pub open spec fn tax_applied(s: MachineState) -> MachineState {
    MachineState { x: s.a, flags: flags_for_result(s.flags, s.a), ..s }
}

/// The machine state after INX: X is incremented, wrapping 0xFF to 0x00
/// rather than widening, and Zero/Negative are recomputed from the result.
pub open spec fn inx_applied(s: MachineState) -> MachineState {
    MachineState {
        x: wrap_add8(s.x, 1),
        flags: flags_for_result(s.flags, wrap_add8(s.x, 1)),
        ..s
    }
}

/// LDA drives the flags from the loaded value alone: Zero becomes set iff
/// the value is 0x00, Negative iff its high bit is set; the other flags
/// and all other state but the accumulator are kept.
pub proof fn lemma_lda_applied_flags(s: MachineState, value: u8)
    ensures
        lda_applied(s, value).a == value,
        flag_set(lda_applied(s, value).flags, ZERO) <==> value == 0,
        flag_set(lda_applied(s, value).flags, NEGATIVE) <==> value & 0x80 != 0,
        lda_applied(s, value).flags & !(ZERO | NEGATIVE) == s.flags & !(ZERO | NEGATIVE),
{
    lemma_flags_for_result(s.flags, value);
}

/// TAX copies the accumulator into X and recomputes the Zero and Negative
/// flags from X's new value only; the accumulator, the other flags, and
/// the rest of the machine are kept.
pub proof fn lemma_tax_applied(s: MachineState)
    ensures
        tax_applied(s).x == s.a,
        tax_applied(s).a == s.a,
        tax_applied(s).y == s.y,
        tax_applied(s).pc == s.pc,
        tax_applied(s).mem == s.mem,
        flag_set(tax_applied(s).flags, ZERO) <==> s.a == 0,
        flag_set(tax_applied(s).flags, NEGATIVE) <==> s.a & 0x80 != 0,
        tax_applied(s).flags & !(ZERO | NEGATIVE) == s.flags & !(ZERO | NEGATIVE),
{
    lemma_flags_for_result(s.flags, s.a);
}

/// INX wraps within eight bits: X becomes the old value plus one modulo
/// 256 — so 0xFF goes to 0x00 with no fatal condition — and the Zero flag
/// reflects exactly that wraparound case.
pub proof fn lemma_inx_wraps(s: MachineState)
    ensures
        inx_applied(s).x == (s.x + 1) % 0x100,
        s.x == 0xFF ==> inx_applied(s).x == 0,
        flag_set(inx_applied(s).flags, ZERO) <==> s.x == 0xFF,
{
    lemma_wrap_add8_is_mod(s.x, 1);
    lemma_flags_for_result(s.flags, wrap_add8(s.x, 1));
}

/// Splitting a word into bytes and reassembling them gives the word back.
pub proof fn lemma_word_split_joins(w: u16)
    ensures
        word_from_bytes(low_byte(w), high_byte(w)) == w,
{
    assert(((((w >> 8) as u8) as u16) << 8) | (((w & 0xFF) as u8) as u16) == w) by (bit_vector);
}

/// Writing a 16-bit word and reading it back at the same address returns
/// the word, at every address, including the one where the high byte wraps
/// around to address zero.
pub proof fn lemma_word_round_trip(mem: Seq<u8>, addr: u16, w: u16)
    requires
        mem.len() == MEMORY_SIZE,
    ensures
        word_at(word_written(mem, addr, w), addr) == w,
{
    let a1 = wrap_add16(addr, 1);
    assert(addr != a1);
    lemma_word_split_joins(w);
}

} // verus!
