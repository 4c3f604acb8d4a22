//! Real quantities as ordered integer keys.

use vstd::prelude::*;

verus! {

/// The bit that carries the sign in a double-precision bit pattern.
pub const SIGN_BIT: u64 = 0x8000_0000_0000_0000;

/// Key of positive infinity. Keys above it, and keys below the key of negative
/// infinity, are not numbers.
pub const INFINITY_KEY: i64 = 0x7FF0_0000_0000_0000;

/// Key of the number one.
pub const ONE_KEY: i64 = 0x3FF0_0000_0000_0000;

/// A double-precision quantity, held as a key.
///
/// A pattern without the sign bit is its own key; a pattern with the sign bit
/// and magnitude `m` has the key `-m - 1`. Integer order on keys is then the
/// numeric order, with negative zero (key `-1`) directly below zero (key `0`).
///
/// `==` on `Scalar` is identity of keys, not numeric equality: numeric
/// comparison is [`Scalar::lt`] and [`Scalar::gt`].
#[derive(Clone, Copy, Debug, PartialEq, Eq, Structural)]
pub struct Scalar {
    pub key: i64,
}

impl Scalar {
    /// The key that stands for a bit pattern.
    pub open spec fn of_bits(bits: u64) -> Scalar {
        if bits < SIGN_BIT {
            Scalar { key: bits as i64 }
        } else {
            Scalar { key: (-(bits - SIGN_BIT) - 1) as i64 }
        }
    }

    /// The bit pattern that a key stands for.
    pub open spec fn bits(self) -> u64 {
        if self.key >= 0 {
            self.key as u64
        } else {
            (SIGN_BIT - self.key - 1) as u64
        }
    }

    /// Whether the key stands for no number.
    pub open spec fn is_nan(self) -> bool {
        self.key > INFINITY_KEY || self.key < -INFINITY_KEY - 1
    }

    /// Numeric "less than": false as soon as either side is not a number, and
    /// false between the two zeros.
    pub open spec fn is_lt(self, other: Scalar) -> bool {
        &&& !self.is_nan()
        &&& !other.is_nan()
        &&& self.key < other.key
        &&& !(self.key == -1 && other.key == 0)
    }

    /// Numeric equality: both sides are numbers, and they have the same key or
    /// are the two zeros.
    pub open spec fn is_eq(self, other: Scalar) -> bool {
        &&& !self.is_nan()
        &&& !other.is_nan()
        &&& (self.key == other.key || (-1 <= self.key <= 0 && -1 <= other.key <= 0))
    }

    /// Numeric "greater than": `other` is less than `self`.
    pub open spec fn is_gt(self, other: Scalar) -> bool {
        other.is_lt(self)
    }

    /// Strictly inside the open interval from `low` to `high`.
    pub open spec fn is_between(self, low: Scalar, high: Scalar) -> bool {
        self.is_gt(low) && self.is_lt(high)
    }

    /// The same magnitude with the other sign.
    pub open spec fn spec_neg(self) -> Scalar {
        Scalar { key: (-1 - self.key) as i64 }
    }

    /// The number zero.
    pub open spec fn spec_zero() -> Scalar {
        Scalar { key: 0 }
    }

    /// The number one.
    pub open spec fn spec_one() -> Scalar {
        Scalar { key: ONE_KEY }
    }

    #[verifier::when_used_as_spec(spec_zero)]
    pub fn zero() -> (s: Scalar)
        ensures
            s == Scalar::spec_zero(),
    {
        Scalar { key: 0 }
    }

    #[verifier::when_used_as_spec(spec_one)]
    pub fn one() -> (s: Scalar)
        ensures
            s == Scalar::spec_one(),
    {
        Scalar { key: ONE_KEY }
    }

    /// Takes a double-precision bit pattern to its key.
    pub fn from_bits(bits: u64) -> (s: Scalar)
        ensures
            s == Scalar::of_bits(bits),
    {
        if bits < SIGN_BIT {
            Scalar { key: bits as i64 }
        } else {
            let magnitude: u64 = bits - SIGN_BIT;
            Scalar { key: -(magnitude as i64) - 1 }
        }
    }

    /// Gives back the bit pattern that the key was made from.
    pub fn to_bits(self) -> (bits: u64)
        ensures
            bits == self.bits(),
    {
        if self.key >= 0 {
            self.key as u64
        } else {
            let magnitude: u64 = (-(self.key + 1)) as u64;
            magnitude + SIGN_BIT
        }
    }

    /// Changes the sign and nothing else. This is exact: no rounding takes
    /// place.
    #[verifier::when_used_as_spec(spec_neg)]
    pub fn neg(self) -> (s: Scalar)
        ensures
            s == self.spec_neg(),
    {
        Scalar { key: -1 - self.key }
    }

    pub fn nan(self) -> (r: bool)
        ensures
            r == self.is_nan(),
    {
        self.key > INFINITY_KEY || self.key < -INFINITY_KEY - 1
    }

    pub fn lt(self, other: Scalar) -> (r: bool)
        ensures
            r == self.is_lt(other),
    {
        !self.nan() && !other.nan() && self.key < other.key && !(self.key == -1 && other.key == 0)
    }

    pub fn num_eq(self, other: Scalar) -> (r: bool)
        ensures
            r == self.is_eq(other),
    {
        !self.nan() && !other.nan() && (self.key == other.key || (-1 <= self.key && self.key <= 0
            && -1 <= other.key && other.key <= 0))
    }

    pub fn gt(self, other: Scalar) -> (r: bool)
        ensures
            r == self.is_gt(other),
    {
        other.lt(self)
    }

    /// Whether `self` lies strictly between `low` and `high`.
    pub fn between(self, low: Scalar, high: Scalar) -> (r: bool)
        ensures
            r == self.is_between(low, high),
    {
        self.gt(low) && self.lt(high)
    }
}

/// Going from a bit pattern to its key and back gives the pattern again, and
/// the other way round.
pub proof fn lemma_bits_round_trip(bits: u64, s: Scalar)
    ensures
        Scalar::of_bits(bits).bits() == bits,
        Scalar::of_bits(s.bits()) == s,
{
}

/// Changing the sign flips the sign bit of the pattern and leaves the rest.
/// Done twice it gives the value back, and it turns the order round.
pub proof fn lemma_neg(a: Scalar, b: Scalar)
    ensures
        a.bits() < SIGN_BIT ==> a.neg().bits() == a.bits() + SIGN_BIT,
        a.bits() >= SIGN_BIT ==> a.neg().bits() == a.bits() - SIGN_BIT,
        a.neg().neg() == a,
        a.neg().is_nan() == a.is_nan(),
        a.is_lt(b) == b.neg().is_lt(a.neg()),
{
}

/// Numeric "less than" is a strict order: nothing is less than itself, and it
/// carries across a middle value. Of two numbers exactly one of less, equal
/// and greater holds.
pub proof fn lemma_lt_strict_order(a: Scalar, b: Scalar, c: Scalar)
    ensures
        !a.is_lt(a),
        a.is_lt(b) ==> !b.is_lt(a),
        a.is_lt(b) && b.is_lt(c) ==> a.is_lt(c),
        !a.is_nan() && !b.is_nan() ==> (a.is_lt(b) || a.is_eq(b) || a.is_gt(b)),
        a.is_eq(b) ==> !a.is_lt(b) && !a.is_gt(b),
{
}

} // verus!
