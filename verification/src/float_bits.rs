//! Single-precision measurement values carried as their IEEE-754 bit
//! patterns, with the comparisons the service makes on them.
//!
//! The library never does float arithmetic: it stores, compares and hands
//! back the exact binary32 encodings that the instruments and requests carry.

use vstd::prelude::*;

verus! {

/// An IEEE-754 binary32 value, held as its 32-bit encoding.
#[derive(Debug, Clone, Copy, PartialEq, Eq, Structural)]
pub struct F32Bits {
    pub bits: u32,
}

/// Largest magnitude encoding that is not a NaN (the encoding of infinity).
pub open spec fn infinity_magnitude() -> int {
    0x7f80_0000
}

impl F32Bits {
    /// The encoding without its sign bit.
    pub open spec fn magnitude(self) -> int {
        (self.bits % 0x8000_0000) as int
    }

    /// The sign bit is set.
    pub open spec fn sign_set(self) -> bool {
        self.bits >= 0x8000_0000
    }

    /// Exponent all ones and a non-zero fraction.
    pub open spec fn spec_is_nan(self) -> bool {
        self.magnitude() > infinity_magnitude()
    }

    /// An integer key that orders non-NaN values as IEEE 754 does
    /// (both zeros get key 0).
    pub open spec fn order_key(self) -> int {
        if self.sign_set() {
            -self.magnitude()
        } else {
            self.magnitude()
        }
    }

    /// `self < other` on the values encoded.
    pub open spec fn spec_lt(self, other: F32Bits) -> bool {
        !self.spec_is_nan() && !other.spec_is_nan() && self.order_key() < other.order_key()
    }

    /// `self <= other` on the values encoded.
    pub open spec fn spec_le(self, other: F32Bits) -> bool {
        !self.spec_is_nan() && !other.spec_is_nan() && self.order_key() <= other.order_key()
    }

    /// The encoding of positive zero.
    pub open spec fn spec_zero() -> F32Bits {
        F32Bits { bits: 0 }
    }

    /// Wraps an encoding.
    pub fn from_bits(bits: u32) -> (r: F32Bits)
        ensures
            r.bits == bits,
    {
        F32Bits { bits }
    }

    /// Positive zero.
    pub fn zero() -> (r: F32Bits)
        ensures
            r == F32Bits::spec_zero(),
    {
        F32Bits { bits: 0 }
    }

    fn magnitude_exec(self) -> (m: u32)
        ensures
            m == self.magnitude(),
    {
        self.bits % 0x8000_0000u32
    }

    /// Whether the value is a NaN.
    pub fn is_nan(self) -> (r: bool)
        ensures
            r == self.spec_is_nan(),
    {
        self.magnitude_exec() > 0x7f80_0000u32
    }

    /// `self < other` as IEEE 754 compares (false when either is NaN).
    pub fn lt(self, other: F32Bits) -> (r: bool)
        ensures
            r == self.spec_lt(other),
    {
        if self.is_nan() || other.is_nan() {
            return false;
        }
        let a = self.magnitude_exec();
        let b = other.magnitude_exec();
        let a_neg = self.bits >= 0x8000_0000u32;
        let b_neg = other.bits >= 0x8000_0000u32;
        if a_neg && b_neg {
            b < a
        } else if a_neg {
            !(a == 0 && b == 0)
        } else if b_neg {
            false
        } else {
            a < b
        }
    }

    /// `self <= other` as IEEE 754 compares (false when either is NaN).
    pub fn le(self, other: F32Bits) -> (r: bool)
        ensures
            r == self.spec_le(other),
    {
        if self.is_nan() || other.is_nan() {
            return false;
        }
        !other.lt(self)
    }
}

} // verus!
