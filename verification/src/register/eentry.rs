//! EENTRY, the exception-entry-address register.
use crate::bits;
use core::ops::RangeInclusive;
use vstd::prelude::*;

verus! {

/// A value of the EENTRY register.
#[derive(Debug, Clone, Copy)]
pub struct Eentry {
    bits: usize,
}

impl View for Eentry {
    type V = usize;

    closed spec fn view(&self) -> usize {
        self.bits
    }
}

impl Eentry {
    /// The raw value.
    pub fn bits(&self) -> (r: usize)
        ensures
            r == self@,
    {
        self.bits
    }

    /// The register holding the raw value `bits`.
    pub fn from_bits(bits: usize) -> (r: Self)
        ensures
            r@ == bits,
    {
        Self { bits }
    }

    /// Replaces the bits in `range` by `value`.
    pub fn set_bits(&mut self, range: RangeInclusive<usize>, value: usize)
        requires
            bits::fresh(range),
            bits::range_ok(range@.start, range@.end),
            bits::fits(value, range@.start, range@.end),
        ensures
            final(self)@ == bits::with_field(old(self)@, range@.start, range@.end, value),
    {
        bits::set_bits(&mut self.bits, range, value);
    }
}

} // verus!
