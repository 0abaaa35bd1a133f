//! GSTAT, the guest-status register.
use crate::bits;
use vstd::prelude::*;

verus! {

/// A value of the GSTAT register.
#[derive(Copy, Clone)]
pub struct Gstat {
    bits: usize,
}

impl View for Gstat {
    type V = usize;

    closed spec fn view(&self) -> usize {
        self.bits
    }
}

impl Gstat {
    /// The raw value.
    pub fn raw(&self) -> (r: usize)
        ensures
            r == self@,
    {
        self.bits
    }

    /// The guest page-global-map bit (bit 1).
    pub fn pgm(&self) -> (r: bool)
        ensures
            r == bits::bit(self@, 1),
    {
        bits::get_bit(self.bits, 1)
    }

    /// The width of the guest-ID field (bits 4 to 9).
    pub fn gidbits(&self) -> (r: usize)
        ensures
            r == bits::field(self@, 4, 9),
    {
        bits::get_bits(self.bits, 4..=9)
    }

    /// The current guest ID (bits 16 to 23).
    pub fn gid(&self) -> (r: usize)
        ensures
            r == bits::field(self@, 16, 23),
    {
        bits::get_bits(self.bits, 16..=23)
    }
}

impl From<usize> for Gstat {
    fn from(bits: usize) -> (r: Self) {
        Gstat { bits }
    }
}

impl vstd::std_specs::convert::FromSpecImpl<usize> for Gstat {
    open spec fn obeys_from_spec() -> bool {
        true
    }

    closed spec fn from_spec(v: usize) -> Self {
        Gstat { bits: v }
    }
}

/// `Gstat::from(v)` holds the raw value `v`.
pub proof fn lemma_from_raw(v: usize)
    ensures
        <Gstat as vstd::std_specs::convert::FromSpec<usize>>::from_spec(v)@ == v,
{
}

/// Writes the guest ID `gid` into bits 16 to 23 of the GSTAT value `gstat`; `gid` must fit
/// in those eight bits.
pub fn set_gid(gstat: &mut Gstat, gid: usize)
    requires
        bits::fits(gid, 16, 23),
    ensures
        final(gstat)@ == bits::with_field(old(gstat)@, 16, 23, gid),
{
    bits::set_bits(&mut gstat.bits, 16..=23, gid);
}

/// Sets the page-global-map bit (bit 1) of the GSTAT value `gstat` to `pgm`.
pub fn set_pgm(gstat: &mut Gstat, pgm: bool)
    ensures
        final(gstat)@ == bits::with_bit(old(gstat)@, 1, pgm),
{
    bits::set_bit(&mut gstat.bits, 1, pgm);
}

/// After `set_gid`, `gid` reads the new guest ID, while `gidbits` and `pgm` keep their values.
pub proof fn lemma_set_gid_then_read(g: Gstat, gid: usize)
    requires
        bits::fits(gid, 16, 23),
    ensures
        bits::field(bits::with_field(g@, 16, 23, gid), 16, 23) == gid,
        bits::field(bits::with_field(g@, 16, 23, gid), 4, 9) == bits::field(g@, 4, 9),
        bits::bit(bits::with_field(g@, 16, 23, gid), 1) == bits::bit(g@, 1),
{
    bits::lemma_field_of_with_field(g@, 16, 23, gid);
    bits::lemma_field_of_with_field_disjoint(g@, 16, 23, gid, 4, 9);
    bits::lemma_bit_of_with_field(g@, 16, 23, gid, 1);
}

/// After `set_pgm`, `pgm` reads the new bit, while `gid` and `gidbits` keep their values.
pub proof fn lemma_set_pgm_then_read(g: Gstat, pgm: bool)
    ensures
        bits::bit(bits::with_bit(g@, 1, pgm), 1) == pgm,
        bits::field(bits::with_bit(g@, 1, pgm), 16, 23) == bits::field(g@, 16, 23),
        bits::field(bits::with_bit(g@, 1, pgm), 4, 9) == bits::field(g@, 4, 9),
{
    bits::lemma_bit_of_with_bit(g@, 1, pgm, 1);
    bits::lemma_field_of_with_bit(g@, 1, pgm, 16, 23);
    bits::lemma_field_of_with_bit(g@, 1, pgm, 4, 9);
}

} // verus!
