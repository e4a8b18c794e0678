//! The processor status register: seven semantically distinct flags packed
//! into one byte, with the canonical Zero/Negative recomputation used by
//! every data-producing instruction.

use vstd::prelude::*;

verus! {

/// Carry flag bit.
pub const CARRY: u8 = 0b0000_0001;

/// Zero flag bit: set iff the last data-producing result was zero.
pub const ZERO: u8 = 0b0000_0010;

/// Interrupt-disable flag bit (reserved position, no computation wired).
pub const INTERRUPT_DISABLE: u8 = 0b0000_0100;

/// Decimal-mode flag bit (reserved position, no computation wired).
pub const DECIMAL_MODE: u8 = 0b0000_1000;

/// Break-command flag bit (reserved position, no computation wired).
pub const BREAK_COMMAND: u8 = 0b0001_0000;

/// Overflow flag bit (reserved position, no computation wired).
pub const OVERFLOW: u8 = 0b0100_0000;

/// Negative flag bit: set iff the high bit of the last result was set.
pub const NEGATIVE: u8 = 0b1000_0000;

/// Every defined flag bit at once.
pub const ALL_FLAGS: u8 = 0b1101_1111;

/// Whether every bit of `mask` is set in `flags`.
pub open spec fn flag_set(flags: u8, mask: u8) -> bool {
    flags & mask == mask
}

/// The flag byte after the canonical Zero/Negative recomputation for
/// `result`: Zero becomes set iff `result == 0`, Negative becomes set iff
/// the high bit of `result` is set, and every other flag keeps its value.
pub open spec fn flags_for_result(flags: u8, result: u8) -> u8 {
    let with_zero = if result == 0 {
        flags | ZERO
    } else {
        flags & !ZERO
    };
    if result & NEGATIVE != 0 {
        with_zero | NEGATIVE
    } else {
        with_zero & !NEGATIVE
    }
}

/// The flag byte after the carry flag is driven to `carry`, all other
/// flags kept.
pub open spec fn flags_with_carry(flags: u8, carry: bool) -> u8 {
    if carry {
        flags | CARRY
    } else {
        flags & !CARRY
    }
}

/// The Zero/Negative recomputation reads only `result`: it sets Zero iff
/// the result is zero, sets Negative iff the result's high bit is set, and
/// leaves every other flag bit exactly as it was.
pub proof fn lemma_flags_for_result(flags: u8, result: u8)
    ensures
        flag_set(flags_for_result(flags, result), ZERO) <==> result == 0,
        flag_set(flags_for_result(flags, result), NEGATIVE) <==> result & 0x80 != 0,
        flags_for_result(flags, result) & !(ZERO | NEGATIVE) == flags & !(ZERO | NEGATIVE),
{
    let z = result == 0;
    let n = result & 0x80 != 0;
    let f2 = flags_for_result(flags, result);
    if z && n {
        assert((flags | 0x02u8 | 0x80u8) & 0x02u8 == 0x02u8) by (bit_vector);
        assert((flags | 0x02u8 | 0x80u8) & 0x80u8 == 0x80u8) by (bit_vector);
        assert((flags | 0x02u8 | 0x80u8) & !(0x02u8 | 0x80u8) == flags & !(0x02u8 | 0x80u8))
            by (bit_vector);
    } else if z && !n {
        assert(((flags | 0x02u8) & !0x80u8) & 0x02u8 == 0x02u8) by (bit_vector);
        assert(((flags | 0x02u8) & !0x80u8) & 0x80u8 != 0x80u8) by (bit_vector);
        assert(((flags | 0x02u8) & !0x80u8) & !(0x02u8 | 0x80u8) == flags & !(0x02u8 | 0x80u8))
            by (bit_vector);
    } else if !z && n {
        assert(((flags & !0x02u8) | 0x80u8) & 0x02u8 != 0x02u8) by (bit_vector);
        assert(((flags & !0x02u8) | 0x80u8) & 0x80u8 == 0x80u8) by (bit_vector);
        assert(((flags & !0x02u8) | 0x80u8) & !(0x02u8 | 0x80u8) == flags & !(0x02u8 | 0x80u8))
            by (bit_vector);
    } else {
        assert(((flags & !0x02u8) & !0x80u8) & 0x02u8 != 0x02u8) by (bit_vector);
        assert(((flags & !0x02u8) & !0x80u8) & 0x80u8 != 0x80u8) by (bit_vector);
        assert(((flags & !0x02u8) & !0x80u8) & !(0x02u8 | 0x80u8) == flags & !(0x02u8 | 0x80u8))
            by (bit_vector);
    }
    assert(f2 == flags_for_result(flags, result));
}

/// The packed processor status register.
pub struct Status {
    pub flags: u8,
}

impl Status {
    /// Whether every bit of `mask` is currently set.
    pub fn contains(&self, mask: u8) -> (r: bool)
        ensures
            r == flag_set(self.flags, mask),
    {
        self.flags & mask == mask
    }

    /// Set every bit of `mask`.
    pub fn insert(&mut self, mask: u8)
        ensures
            final(self).flags == old(self).flags | mask,
    {
        self.flags = self.flags | mask;
    }

    /// Clear every bit of `mask`.
    pub fn remove(&mut self, mask: u8)
        ensures
            final(self).flags == old(self).flags & !mask,
    {
        self.flags = self.flags & !mask;
    }

    /// The canonical update invoked by arithmetic, logical, load, and
    /// transfer instructions: recompute Zero and Negative from `result`,
    /// leaving all other flags untouched.
    pub fn set_flags_for_result(&mut self, result: u8)
        ensures
            final(self).flags == flags_for_result(old(self).flags, result),
    {
        if result == 0 {
            self.flags = self.flags | ZERO;
        } else {
            self.flags = self.flags & !ZERO;
        }

        if result & NEGATIVE != 0 {
            self.flags = self.flags | NEGATIVE;
        } else {
            self.flags = self.flags & !NEGATIVE;
        }
    }

    /// Drive the carry flag from the bit shifted out by a shift or rotate
    /// instruction; never inferred from the result.
    pub fn set_carry_flag(&mut self, carry: bool)
        ensures
            final(self).flags == flags_with_carry(old(self).flags, carry),
    {
        if carry {
            self.flags = self.flags | CARRY;
        } else {
            self.flags = self.flags & !CARRY;
        }
    }
}

impl Default for Status {
    /// A status register with no flag set.
    fn default() -> (r: Self)
        ensures
            r.flags == 0,
    {
        Status { flags: 0 }
    }
}

} // verus!
