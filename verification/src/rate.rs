//! Exchange rates and amounts of money as exact bit patterns.

use vstd::prelude::*;

verus! {

/// An exchange rate: units of the target currency per one unit of the source
/// currency. The number is carried as its IEEE 754 binary64 bit pattern, so a
/// rate that is stored and read back is the same number, bit for bit.
#[derive(Clone, Copy, Debug, PartialEq, Eq, Structural)]
pub struct Rate {
    pub bits: u64,
}

/// The sign field of a binary64 pattern.
pub open spec fn sign_field(bits: u64) -> u64 {
    bits >> 63
}

/// The biased-exponent field of a binary64 pattern.
pub open spec fn exponent_field(bits: u64) -> u64 {
    (bits >> 52) & 0x7ff
}

/// The fraction field of a binary64 pattern.
pub open spec fn fraction_field(bits: u64) -> u64 {
    bits & 0x000f_ffff_ffff_ffff
}

/// A pattern stands for a finite number that is not below zero: its exponent
/// is not the all-ones exponent of infinities and NaNs, and either the sign is
/// clear or the pattern is negative zero.
pub open spec fn finite_non_negative(bits: u64) -> bool {
    exponent_field(bits) != 0x7ff && (sign_field(bits) == 0 || (exponent_field(bits) == 0
        && fraction_field(bits) == 0))
}

impl Rate {
    /// The rate whose binary64 pattern is `bits`.
    pub fn from_bits(bits: u64) -> (r: Rate)
        ensures
            r.bits == bits,
    {
        Rate { bits }
    }

    /// The binary64 pattern of this rate.
    pub fn to_bits(&self) -> (bits: u64)
        ensures
            bits == self.bits,
    {
        self.bits
    }

    /// Whether this rate is a finite number that is not below zero.
    pub fn is_finite_non_negative(&self) -> (ok: bool)
        ensures
            ok == finite_non_negative(self.bits),
    {
        let bits: u64 = self.bits;
        assert((bits < 0x7ff0_0000_0000_0000 || bits == 0x8000_0000_0000_0000) == (((bits >> 52)
            & 0x7ff) != 0x7ff && ((bits >> 63) == 0 || (((bits >> 52) & 0x7ff) == 0 && (bits
            & 0x000f_ffff_ffff_ffff) == 0)))) by (bit_vector);
        bits < 0x7ff0_0000_0000_0000 || bits == 0x8000_0000_0000_0000
    }
}

/// An amount of money in some currency, carried as the IEEE 754 binary64 bit
/// pattern of the number.
#[derive(Clone, Copy, Debug, PartialEq, Eq, Structural)]
pub struct Amount {
    pub bits: u64,
}

/// A pattern stands for a number above zero: its sign is clear, it is not a
/// NaN, and it is not zero. Positive infinity counts as above zero.
pub open spec fn above_zero(bits: u64) -> bool {
    sign_field(bits) == 0 && !(exponent_field(bits) == 0x7ff && fraction_field(bits) != 0) && !(
    exponent_field(bits) == 0 && fraction_field(bits) == 0)
}

impl Amount {
    /// The amount whose binary64 pattern is `bits`.
    pub fn from_bits(bits: u64) -> (a: Amount)
        ensures
            a.bits == bits,
    {
        Amount { bits }
    }

    /// The binary64 pattern of this amount.
    pub fn to_bits(&self) -> (bits: u64)
        ensures
            bits == self.bits,
    {
        self.bits
    }

    /// Whether this amount is a number above zero, as an amount to convert
    /// has to be.
    pub fn is_positive(&self) -> (ok: bool)
        ensures
            ok == above_zero(self.bits),
    {
        let bits: u64 = self.bits;
        assert((0 < bits && bits <= 0x7ff0_0000_0000_0000) == ((bits >> 63) == 0 && !(((bits >> 52)
            & 0x7ff) == 0x7ff && (bits & 0x000f_ffff_ffff_ffff) != 0) && !(((bits >> 52) & 0x7ff)
            == 0 && (bits & 0x000f_ffff_ffff_ffff) == 0))) by (bit_vector);
        0 < bits && bits <= 0x7ff0_0000_0000_0000
    }
}

} // verus!
