//! CRMD, the current-mode register.
use crate::bits;
use core::ops::RangeInclusive;
use vstd::prelude::*;

verus! {

/// A value of the CRMD register.
#[derive(Debug, Clone, Copy)]
pub struct Crmd {
    bits: usize,
}

impl View for Crmd {
    type V = usize;

    closed spec fn view(&self) -> usize {
        self.bits
    }
}

impl Crmd {
    /// The raw value.
    pub fn bits(&self) -> (r: usize)
        ensures
            r == self@,
    {
        self.bits
    }

    /// The register holding the raw value `bits`.
    pub fn from_bits(bits: usize) -> (r: Self)
        ensures
            r@ == bits,
    {
        Self { bits }
    }

    /// Replaces the bits in `range` by `value`.
    pub fn set_bits(&mut self, range: RangeInclusive<usize>, value: usize)
        requires
            bits::fresh(range),
            bits::range_ok(range@.start, range@.end),
            bits::fits(value, range@.start, range@.end),
        ensures
            final(self)@ == bits::with_field(old(self)@, range@.start, range@.end, value),
    {
        bits::set_bits(&mut self.bits, range, value);
    }

    /// The interrupt-enable bit (bit 2).
    pub fn ie(&self) -> (r: bool)
        ensures
            r == bits::bit(self@, 2),
    {
        bits::get_bit(self.bits, 2)
    }

    /// The raw value `crmd` with the interrupt-enable bit cleared.
    pub fn ie_cleared(crmd: usize) -> (r: usize)
        ensures
            r == bits::with_bit(crmd, 2, false),
    {
        crmd & !(1usize << 2)
    }

    /// The raw value `crmd` with the interrupt-enable bit set.
    pub fn ie_set(crmd: usize) -> (r: usize)
        ensures
            r == bits::with_bit(crmd, 2, true),
    {
        crmd | (1usize << 2)
    }
}

/// Setting the interrupt-enable bit makes `ie` true and clearing it makes `ie` false; no
/// other bit changes.
pub proof fn lemma_ie_set_cleared(crmd: usize, b: usize)
    requires
        b < usize::BITS,
    ensures
        bits::bit(bits::with_bit(crmd, 2, true), 2),
        !bits::bit(bits::with_bit(crmd, 2, false), 2),
        b != 2 ==> bits::bit(bits::with_bit(crmd, 2, true), b) == bits::bit(crmd, b),
        b != 2 ==> bits::bit(bits::with_bit(crmd, 2, false), b) == bits::bit(crmd, b),
{
    bits::lemma_bit_of_with_bit(crmd, 2, true, b);
    bits::lemma_bit_of_with_bit(crmd, 2, false, b);
}

} // verus!
