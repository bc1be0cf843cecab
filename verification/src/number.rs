//! Numbers of the language, held as IEEE-754 binary64 bit patterns.

use vstd::prelude::*;

verus! {

/// Two to the power 63: the weight of the sign bit.
pub const SIGN_BIT: u64 = 0x8000_0000_0000_0000;

/// The magnitude of positive infinity; every larger magnitude is a NaN.
pub const INFINITY_MAGNITUDE: u64 = 0x7ff0_0000_0000_0000;

/// The pattern without its sign bit.
pub open spec fn magnitude_of(bits: u64) -> int {
    if bits >= SIGN_BIT {
        bits - SIGN_BIT
    } else {
        bits as int
    }
}

/// Whether the pattern stands for no number at all.
pub open spec fn nan_bits(bits: u64) -> bool {
    magnitude_of(bits) > INFINITY_MAGNITUDE
}

/// A key that orders the patterns which are numbers as the numbers they
/// stand for: the magnitude, negated under a set sign bit. Both zeros
/// share the key 0.
pub open spec fn order_key(bits: u64) -> int {
    if bits >= SIGN_BIT {
        -magnitude_of(bits)
    } else {
        magnitude_of(bits)
    }
}

/// IEEE-754 equality: false when either side is a NaN, and the two zeros
/// are equal.
pub open spec fn equal_bits(a: u64, b: u64) -> bool {
    !nan_bits(a) && !nan_bits(b) && order_key(a) == order_key(b)
}

/// IEEE-754 strict order: false when either side is a NaN.
pub open spec fn less_bits(a: u64, b: u64) -> bool {
    !nan_bits(a) && !nan_bits(b) && order_key(a) < order_key(b)
}

/// The pattern with its sign bit flipped.
pub open spec fn negated_bits(bits: u64) -> u64 {
    if bits >= SIGN_BIT {
        (bits - SIGN_BIT) as u64
    } else {
        (bits + SIGN_BIT) as u64
    }
}

/// A double, by its bit pattern.
#[derive(Clone, Copy, Debug, PartialEq, Eq, Structural)]
pub struct Number {
    pub bits: u64,
}

impl Number {
    /// The number with the given bit pattern.
    pub fn from_bits(bits: u64) -> (number: Number)
        ensures
            number.bits == bits,
    {
        Number { bits }
    }

    /// The bit pattern.
    pub fn to_bits(&self) -> (bits: u64)
        ensures
            bits == self.bits,
    {
        self.bits
    }

    /// Positive zero.
    pub fn zero() -> (number: Number)
        ensures
            number.bits == 0,
    {
        Number { bits: 0 }
    }

    fn magnitude(&self) -> (m: u64)
        ensures
            m == magnitude_of(self.bits),
    {
        if self.bits >= SIGN_BIT {
            self.bits - SIGN_BIT
        } else {
            self.bits
        }
    }

    fn negative(&self) -> (n: bool)
        ensures
            n == (self.bits >= SIGN_BIT),
    {
        self.bits >= SIGN_BIT
    }

    /// Whether this is a NaN.
    pub fn is_nan(&self) -> (nan: bool)
        ensures
            nan == nan_bits(self.bits),
    {
        self.magnitude() > INFINITY_MAGNITUDE
    }

    /// Whether this is positive or negative zero.
    pub fn is_zero(&self) -> (zero: bool)
        ensures
            zero == (magnitude_of(self.bits) == 0),
            zero == equal_bits(self.bits, 0),
    {
        self.magnitude() == 0
    }

    /// The number with the opposite sign; a NaN stays a NaN.
    pub fn negate(&self) -> (number: Number)
        ensures
            number.bits == negated_bits(self.bits),
            magnitude_of(number.bits) == magnitude_of(self.bits),
            (number.bits >= SIGN_BIT) != (self.bits >= SIGN_BIT),
    {
        if self.bits >= SIGN_BIT {
            Number { bits: self.bits - SIGN_BIT }
        } else {
            Number { bits: self.bits + SIGN_BIT }
        }
    }

    /// `self == other` as doubles compare.
    pub fn equals(&self, other: &Number) -> (equal: bool)
        ensures
            equal == equal_bits(self.bits, other.bits),
    {
        if self.is_nan() || other.is_nan() {
            return false;
        }
        let a: u64 = self.magnitude();
        let b: u64 = other.magnitude();
        if a == 0 && b == 0 {
            return true;
        }
        self.negative() == other.negative() && a == b
    }

    /// `self < other` as doubles compare.
    pub fn less_than(&self, other: &Number) -> (less: bool)
        ensures
            less == less_bits(self.bits, other.bits),
    {
        if self.is_nan() || other.is_nan() {
            return false;
        }
        let a: u64 = self.magnitude();
        let b: u64 = other.magnitude();
        if self.negative() {
            if other.negative() {
                a > b
            } else {
                a != 0 || b != 0
            }
        } else {
            if other.negative() {
                false
            } else {
                a < b
            }
        }
    }

    /// `self <= other` as doubles compare.
    pub fn less_or_equal(&self, other: &Number) -> (r: bool)
        ensures
            r == (less_bits(self.bits, other.bits) || equal_bits(self.bits, other.bits)),
    {
        self.less_than(other) || self.equals(other)
    }

    /// `self > other` as doubles compare.
    pub fn greater_than(&self, other: &Number) -> (r: bool)
        ensures
            r == less_bits(other.bits, self.bits),
    {
        other.less_than(self)
    }

    /// `self >= other` as doubles compare.
    pub fn greater_or_equal(&self, other: &Number) -> (r: bool)
        ensures
            r == (less_bits(other.bits, self.bits) || equal_bits(self.bits, other.bits)),
    {
        other.less_than(self) || self.equals(other)
    }
}

/// Negating twice gives the pattern back.
pub proof fn negation_is_an_involution(bits: u64)
    ensures
        negated_bits(negated_bits(bits)) == bits,
{
}

/// Of two numbers exactly one of less, equal and greater holds; of a NaN and
/// anything, none does.
pub proof fn comparison_is_a_trichotomy(a: u64, b: u64)
    ensures
        !nan_bits(a) && !nan_bits(b) ==> (less_bits(a, b) || equal_bits(a, b) || less_bits(b, a)),
        !(less_bits(a, b) && equal_bits(a, b)),
        !(less_bits(a, b) && less_bits(b, a)),
        nan_bits(a) || nan_bits(b) ==> !less_bits(a, b) && !equal_bits(a, b) && !less_bits(b, a),
{
}

} // verus!
