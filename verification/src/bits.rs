//! Bit-field arithmetic on `usize` words, as the `bit_field` crate performs it.
use bit_field::BitField;
use core::ops::RangeInclusive;
use vstd::prelude::*;

verus! {

/// The word with its low `width` bits set; all bits when `width` is the word size.
pub open spec fn low_mask(width: usize) -> usize {
    !(!0usize << width)
}

/// Number of bits in the inclusive range `lo..=hi`.
pub open spec fn width(lo: usize, hi: usize) -> usize {
    (hi + 1 - lo) as usize
}

/// An inclusive range `lo..=hi` that `bit_field` accepts on a `usize`: both ends inside
/// the word, and at most empty (`hi + 1 == lo`).
pub open spec fn range_ok(lo: usize, hi: usize) -> bool {
    &&& lo < usize::BITS
    &&& hi < usize::BITS
    &&& lo <= hi + 1
}

/// Bits `lo..=hi` of `x`, shifted down to bit 0.
pub open spec fn field(x: usize, lo: usize, hi: usize) -> usize {
    (x >> lo) & low_mask(width(lo, hi))
}

/// `value` fits in a field of the bits `lo..=hi`.
pub open spec fn fits(value: usize, lo: usize, hi: usize) -> bool {
    value & !low_mask(width(lo, hi)) == 0
}

/// `x` with bits `lo..=hi` replaced by `value`.
pub open spec fn with_field(x: usize, lo: usize, hi: usize, value: usize) -> usize {
    (x & !(low_mask(width(lo, hi)) << lo)) | (value << lo)
}

/// Bit `b` of `x` is set.
pub open spec fn bit(x: usize, b: usize) -> bool {
    x & (1usize << b) != 0
}

/// `x` with bit `b` set to `value`.
pub open spec fn with_bit(x: usize, b: usize, value: bool) -> usize {
    if value {
        x | (1usize << b)
    } else {
        x & !(1usize << b)
    }
}

/// The range of a fresh `lo..=hi` expression, as `bit_field` reads it.
pub open spec fn fresh(range: RangeInclusive<usize>) -> bool {
    !range@.exhausted
}

/// `BitField::get_bit` on `usize`: whether bit `bit` is set; it asserts `bit < usize::BITS`.
#[verifier::external_body]
pub(crate) fn get_bit(x: usize, bit: usize) -> (r: bool)
    requires
        bit < usize::BITS,
    ensures
        r == self::bit(x, bit),
{
    x.get_bit(bit)
}

/// `BitField::get_bits` on `usize` with an inclusive range: the bits `lo..=hi` shifted down
/// to bit 0. It asserts that the range lies in the word. A range that has been iterated to
/// exhaustion is left out, since std leaves its end unspecified.
#[verifier::external_body]
pub(crate) fn get_bits(x: usize, range: RangeInclusive<usize>) -> (r: usize)
    requires
        fresh(range),
        range_ok(range@.start, range@.end),
    ensures
        r == field(x, range@.start, range@.end),
{
    x.get_bits(range)
}

/// `BitField::set_bit` on `usize`: sets or clears bit `bit`; it asserts `bit < usize::BITS`.
#[verifier::external_body]
pub(crate) fn set_bit(x: &mut usize, bit: usize, value: bool)
    requires
        bit < usize::BITS,
    ensures
        *final(x) == with_bit(*old(x), bit, value),
{
    x.set_bit(bit, value);
}

/// `BitField::set_bits` on `usize` with an inclusive range: replaces bits `lo..=hi` by
/// `value`. It asserts that the range lies in the word and that `value` fits in it.
#[verifier::external_body]
pub(crate) fn set_bits(x: &mut usize, range: RangeInclusive<usize>, value: usize)
    requires
        fresh(range),
        range_ok(range@.start, range@.end),
        fits(value, range@.start, range@.end),
    ensures
        *final(x) == with_field(*old(x), range@.start, range@.end, value),
{
    x.set_bits(range, value);
}

/// Reading back a field gives the value just written to it.
pub proof fn lemma_field_of_with_field(x: usize, lo: usize, hi: usize, value: usize)
    requires
        range_ok(lo, hi),
        fits(value, lo, hi),
    ensures
        field(with_field(x, lo, hi, value), lo, hi) == value,
{
    let w = width(lo, hi);
    assert(w <= usize::BITS && lo < usize::BITS);
    assert(((x & !(low_mask(w) << lo)) | (value << lo)) >> lo & low_mask(w) == value) by (bit_vector)
        requires
            w <= usize::BITS,
            lo < usize::BITS,
            lo + w <= usize::BITS,
            value & !low_mask(w) == 0;
}

/// Writing a field leaves every field that does not overlap it unchanged.
pub proof fn lemma_field_of_with_field_disjoint(
    x: usize,
    lo: usize,
    hi: usize,
    value: usize,
    lo2: usize,
    hi2: usize,
)
    requires
        range_ok(lo, hi),
        range_ok(lo2, hi2),
        fits(value, lo, hi),
        hi < lo2 || hi2 < lo,
    ensures
        field(with_field(x, lo, hi, value), lo2, hi2) == field(x, lo2, hi2),
{
    let w = width(lo, hi);
    let w2 = width(lo2, hi2);
    assert(((x & !(low_mask(w) << lo)) | (value << lo)) >> lo2 & low_mask(w2) == (x >> lo2)
        & low_mask(w2)) by (bit_vector)
        requires
            lo < usize::BITS,
            lo2 < usize::BITS,
            w <= usize::BITS,
            w2 <= usize::BITS,
            lo + w <= usize::BITS,
            lo2 + w2 <= usize::BITS,
            lo + w <= lo2 || lo2 + w2 <= lo,
            value & !low_mask(w) == 0;
}

/// Writing a field leaves every bit outside it unchanged.
pub proof fn lemma_bit_of_with_field(x: usize, lo: usize, hi: usize, value: usize, b: usize)
    requires
        range_ok(lo, hi),
        fits(value, lo, hi),
        b < usize::BITS,
        b < lo || hi < b,
    ensures
        bit(with_field(x, lo, hi, value), b) == bit(x, b),
{
    let w = width(lo, hi);
    assert(((x & !(low_mask(w) << lo)) | (value << lo)) & (1usize << b) != 0 <==> x & (1usize
        << b) != 0) by (bit_vector)
        requires
            lo < usize::BITS,
            w <= usize::BITS,
            lo + w <= usize::BITS,
            b < usize::BITS,
            b < lo || lo + w <= b,
            value & !low_mask(w) == 0;
}

/// Writing the value that a field already holds changes nothing.
pub proof fn lemma_with_field_of_field(x: usize, lo: usize, hi: usize)
    requires
        range_ok(lo, hi),
    ensures
        fits(field(x, lo, hi), lo, hi),
        with_field(x, lo, hi, field(x, lo, hi)) == x,
{
    let w = width(lo, hi);
    assert(((x >> lo) & low_mask(w)) & !low_mask(w) == 0) by (bit_vector);
    assert((x & !(low_mask(w) << lo)) | (((x >> lo) & low_mask(w)) << lo) == x) by (bit_vector)
        requires
            lo < usize::BITS,
            w <= usize::BITS,
            lo + w <= usize::BITS;
}

/// A second write to a field overrides the first.
pub proof fn lemma_with_field_twice(x: usize, lo: usize, hi: usize, v1: usize, v2: usize)
    requires
        range_ok(lo, hi),
        fits(v1, lo, hi),
        fits(v2, lo, hi),
    ensures
        with_field(with_field(x, lo, hi, v1), lo, hi, v2) == with_field(x, lo, hi, v2),
{
    let w = width(lo, hi);
    let m = low_mask(w);
    assert((((x & !(m << lo)) | (v1 << lo)) & !(m << lo)) | (v2 << lo) == (x & !(m << lo)) | (v2
        << lo)) by (bit_vector)
        requires
            lo < usize::BITS,
            w <= usize::BITS,
            lo + w <= usize::BITS,
            m == !(!0usize << w),
            v1 & !m == 0;
}

/// Reading back a bit gives the value just written to it; every other bit is unchanged.
pub proof fn lemma_bit_of_with_bit(x: usize, b: usize, value: bool, c: usize)
    requires
        b < usize::BITS,
        c < usize::BITS,
    ensures
        bit(with_bit(x, b, value), b) == value,
        c != b ==> bit(with_bit(x, b, value), c) == bit(x, c),
{
    assert((x | (1usize << b)) & (1usize << b) != 0) by (bit_vector)
        requires
            b < usize::BITS;
    assert((x & !(1usize << b)) & (1usize << b) == 0) by (bit_vector);
    assert(c != b ==> ((x | (1usize << b)) & (1usize << c) != 0 <==> x & (1usize << c) != 0))
        by (bit_vector)
        requires
            b < usize::BITS,
            c < usize::BITS;
    assert(c != b ==> ((x & !(1usize << b)) & (1usize << c) != 0 <==> x & (1usize << c) != 0))
        by (bit_vector)
        requires
            b < usize::BITS,
            c < usize::BITS;
}

/// Writing a bit leaves every field that does not contain it unchanged.
pub proof fn lemma_field_of_with_bit(x: usize, b: usize, value: bool, lo: usize, hi: usize)
    requires
        b < usize::BITS,
        range_ok(lo, hi),
        b < lo || hi < b,
    ensures
        field(with_bit(x, b, value), lo, hi) == field(x, lo, hi),
{
    let w = width(lo, hi);
    assert(((x | (1usize << b)) >> lo) & low_mask(w) == (x >> lo) & low_mask(w)) by (bit_vector)
        requires
            b < usize::BITS,
            lo < usize::BITS,
            w <= usize::BITS,
            lo + w <= usize::BITS,
            b < lo || lo + w <= b;
    assert(((x & !(1usize << b)) >> lo) & low_mask(w) == (x >> lo) & low_mask(w)) by (bit_vector)
        requires
            b < usize::BITS,
            lo < usize::BITS,
            w <= usize::BITS,
            lo + w <= usize::BITS,
            b < lo || lo + w <= b;
}

} // verus!
