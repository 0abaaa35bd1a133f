//! ESTAT, the exception-status register.
use crate::bits;
use core::ops::RangeInclusive;
use vstd::prelude::*;

verus! {

/// Exception codes that the low five bits of ESTAT are read as.
#[allow(missing_docs)]
#[derive(Debug, Clone, Copy)]
pub enum Exception {
    Int,
    PIL,
    PIS,
    PIF,
    PME,
    PNR,
    PNX,
    PP,
    ADEF,
    ADEM,
    ALE,
    BCE,
    SYS,
    BRK,
    INE,
    IPE,
    FPD,
    SXD,
    ASXD,
    FPE,
    VFPE,
    WPEF,
    TLBR,
}

/// Kind of a trap.
#[allow(missing_docs)]
#[derive(Debug, Clone, Copy)]
pub enum Trap {
    Interrupt,
    Exception,
}

/// The exception that the code `code` (at most 22) stands for.
pub open spec fn exception_of_code(code: usize) -> Exception {
    match code {
        0 => Exception::Int,
        1 => Exception::PIL,
        2 => Exception::PIS,
        3 => Exception::PIF,
        4 => Exception::PME,
        5 => Exception::PNR,
        6 => Exception::PNX,
        7 => Exception::PP,
        8 => Exception::ADEF,
        9 => Exception::ADEM,
        10 => Exception::ALE,
        11 => Exception::BCE,
        12 => Exception::SYS,
        13 => Exception::BRK,
        14 => Exception::INE,
        15 => Exception::IPE,
        16 => Exception::FPD,
        17 => Exception::SXD,
        18 => Exception::ASXD,
        19 => Exception::FPE,
        20 => Exception::VFPE,
        21 => Exception::WPEF,
        _ => Exception::TLBR,
    }
}

impl Exception {
    /// The code of the exception.
    pub open spec fn code(self) -> usize {
        match self {
            Exception::Int => 0,
            Exception::PIL => 1,
            Exception::PIS => 2,
            Exception::PIF => 3,
            Exception::PME => 4,
            Exception::PNR => 5,
            Exception::PNX => 6,
            Exception::PP => 7,
            Exception::ADEF => 8,
            Exception::ADEM => 9,
            Exception::ALE => 10,
            Exception::BCE => 11,
            Exception::SYS => 12,
            Exception::BRK => 13,
            Exception::INE => 14,
            Exception::IPE => 15,
            Exception::FPD => 16,
            Exception::SXD => 17,
            Exception::ASXD => 18,
            Exception::FPE => 19,
            Exception::VFPE => 20,
            Exception::WPEF => 21,
            Exception::TLBR => 22,
        }
    }
}

/// Codes and exceptions correspond one to one.
pub proof fn lemma_exception_code(e: Exception, code: usize)
    ensures
        e.code() <= 22,
        exception_of_code(e.code()) == e,
        code <= 22 ==> exception_of_code(code).code() == code,
{
}

/// A value of the ESTAT register.
#[derive(Debug, Clone, Copy)]
pub struct Estat {
    bits: usize,
}

impl View for Estat {
    type V = usize;

    closed spec fn view(&self) -> usize {
        self.bits
    }
}

impl Estat {
    /// The raw value.
    pub fn bits(&self) -> (r: usize)
        ensures
            r == self@,
    {
        self.bits
    }

    /// The register holding the raw value `bits`.
    pub fn from_bits(bits: usize) -> (r: Self)
        ensures
            r@ == bits,
    {
        Self { bits }
    }

    /// Replaces the bits in `range` by `value`.
    pub fn set_bits(&mut self, range: RangeInclusive<usize>, value: usize)
        requires
            bits::fresh(range),
            bits::range_ok(range@.start, range@.end),
            bits::fits(value, range@.start, range@.end),
        ensures
            final(self)@ == bits::with_field(old(self)@, range@.start, range@.end, value),
    {
        bits::set_bits(&mut self.bits, range, value);
    }

    /// The exception recorded in bits 0 to 4; the value there must be a known code.
    pub fn cause(&self) -> (r: Exception)
        requires
            bits::field(self@, 0, 4) <= 22,
        ensures
            r == exception_of_code(bits::field(self@, 0, 4)),
    {
        match bits::get_bits(self.bits, 0..=4) {
            0 => Exception::Int,
            1 => Exception::PIL,
            2 => Exception::PIS,
            3 => Exception::PIF,
            4 => Exception::PME,
            5 => Exception::PNR,
            6 => Exception::PNX,
            7 => Exception::PP,
            8 => Exception::ADEF,
            9 => Exception::ADEM,
            10 => Exception::ALE,
            11 => Exception::BCE,
            12 => Exception::SYS,
            13 => Exception::BRK,
            14 => Exception::INE,
            15 => Exception::IPE,
            16 => Exception::FPD,
            17 => Exception::SXD,
            18 => Exception::ASXD,
            19 => Exception::FPE,
            20 => Exception::VFPE,
            21 => Exception::WPEF,
            22 => Exception::TLBR,
            _ => {
                proof {
                    assert(false);
                }
                Exception::TLBR
            },
        }
    }
}

} // verus!
