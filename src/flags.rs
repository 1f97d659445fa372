use vstd::prelude::*;

verus! {

/// Carry: set when an addition overflows 8 bits, or by the bit shifted out.
pub const CARRY: u8 = 0b0000_0001;
/// Zero: the last result was zero.
pub const ZERO: u8 = 0b0000_0010;
/// Interrupt disable.
pub const INTERRUPT_DISABLE: u8 = 0b0000_0100;
/// Decimal mode (kept, never acted upon).
pub const DECIMAL_MODE: u8 = 0b0000_1000;
/// Break: only meaningful in a status byte pushed on the stack.
pub const BREAK: u8 = 0b0001_0000;
/// Second break bit: only meaningful in a status byte pushed on the stack.
pub const BREAK2: u8 = 0b0010_0000;
/// Signed overflow of an addition or subtraction.
pub const OVERFLOW: u8 = 0b0100_0000;
/// Negative: bit 7 of the last result.
pub const NEGATIVE: u8 = 0b1000_0000;

/// Whether every bit of `mask` is set in `bits`.
pub open spec fn has_flag(bits: u8, mask: u8) -> bool {
    bits & mask == mask
}

/// `bits` with the bits of `mask` turned on or off.
pub open spec fn with_flag(bits: u8, mask: u8, on: bool) -> u8 {
    if on {
        bits | mask
    } else {
        bits & !mask
    }
}

/// The processor status register: eight independent flags over one byte.
#[derive(Clone, Copy, Debug, PartialEq, Eq, Structural)]
pub struct CpuFlags {
    pub bits: u8,
}

impl CpuFlags {
    pub fn from_bits_truncate(bits: u8) -> (r: CpuFlags)
        ensures
            r.bits == bits,
    {
        CpuFlags { bits }
    }

    pub fn bits(&self) -> (r: u8)
        ensures
            r == self.bits,
    {
        self.bits
    }

    pub fn contains(&self, mask: u8) -> (r: bool)
        ensures
            r == has_flag(self.bits, mask),
    {
        self.bits & mask == mask
    }

    pub fn insert(&mut self, mask: u8)
        ensures
            final(self).bits == with_flag(old(self).bits, mask, true),
    {
        self.bits = self.bits | mask;
    }

    pub fn remove(&mut self, mask: u8)
        ensures
            final(self).bits == with_flag(old(self).bits, mask, false),
    {
        self.bits = self.bits & !mask;
    }

    pub fn set(&mut self, mask: u8, on: bool)
        ensures
            final(self).bits == with_flag(old(self).bits, mask, on),
    {
        if on {
            self.insert(mask);
        } else {
            self.remove(mask);
        }
    }
}

/// Turning one flag on or off decides that flag and leaves every other bit as it was.
pub proof fn lemma_with_flag(bits: u8, mask: u8, on: bool, other: u8)
    requires
        mask & other == 0,
    ensures
        has_flag(with_flag(bits, mask, on), mask) == (on || mask == 0),
        with_flag(bits, mask, on) & other == bits & other,
{
    if on {
        assert((bits | mask) & mask == mask) by (bit_vector);
        assert(mask & other == 0 ==> (bits | mask) & other == bits & other) by (bit_vector);
    } else {
        assert((bits & !mask) & mask == mask <==> mask == 0) by (bit_vector);
        assert(mask & other == 0 ==> (bits & !mask) & other == bits & other) by (bit_vector);
    }
}

} // verus!
