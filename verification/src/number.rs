//! Binary64 numbers by their bit patterns, and their three-way comparison.

use vstd::prelude::*;

verus! {

/// How a value stands against the one that came before it.
#[derive(Clone, Copy, Debug, PartialEq, Eq, Structural)]
pub enum Change {
    Up,
    Down,
    Unchanged,
}

/// The bit that holds the sign of a binary64 number.
pub const SIGN_BIT: u64 = 0x8000_0000_0000_0000;

/// The bit pattern of positive infinity: every magnitude above it is a NaN.
pub const INFINITY_BITS: u64 = 0x7FF0_0000_0000_0000;

/// A binary64 floating-point number, held as its IEEE 754 bit pattern.
///
/// Nothing is rounded or rescaled: the number is the one that the bits
/// encode, and two numbers are compared as IEEE 754 compares them.
#[derive(Clone, Copy, Debug)]
pub struct Float {
    pub bits: u64,
}

impl Float {
    /// The bits without the sign.
    pub open spec fn magnitude(self) -> int {
        if self.bits >= SIGN_BIT {
            self.bits - SIGN_BIT
        } else {
            self.bits as int
        }
    }

    /// Whether the bits encode no number at all.
    pub open spec fn spec_is_nan(&self) -> bool {
        self.magnitude() > INFINITY_BITS
    }

    /// An integer that orders the numbers as their values do: the magnitude,
    /// negated under a sign bit. Both zeros have rank 0.
    pub open spec fn rank(self) -> int {
        if self.bits >= SIGN_BIT {
            -self.magnitude()
        } else {
            self.magnitude()
        }
    }

    /// `self > prior`, as IEEE 754 decides it: false where one side is a NaN.
    pub open spec fn above(self, prior: Float) -> bool {
        !self.spec_is_nan() && !prior.spec_is_nan() && self.rank() > prior.rank()
    }

    /// `self < prior`, as IEEE 754 decides it: false where one side is a NaN.
    pub open spec fn below(self, prior: Float) -> bool {
        !self.spec_is_nan() && !prior.spec_is_nan() && self.rank() < prior.rank()
    }

    /// The move from `prior` to `self`: up where `self > prior`, down where
    /// `self < prior`, unchanged in every other case.
    pub open spec fn spec_change_from(&self, prior: &Float) -> Change {
        if self.above(*prior) {
            Change::Up
        } else if self.below(*prior) {
            Change::Down
        } else {
            Change::Unchanged
        }
    }

    /// The number with the given bit pattern.
    pub fn from_bits(bits: u64) -> (x: Float)
        ensures
            x.bits == bits,
    {
        Float { bits }
    }

    /// The bit pattern of the number.
    pub fn to_bits(&self) -> (bits: u64)
        ensures
            bits == self.bits,
    {
        self.bits
    }

    /// Positive zero.
    pub fn zero() -> (x: Float)
        ensures
            x.bits == 0,
    {
        Float { bits: 0 }
    }

    #[verifier::when_used_as_spec(spec_is_nan)]
    pub fn is_nan(&self) -> (nan: bool)
        ensures
            nan == self.spec_is_nan(),
    {
        if self.bits >= SIGN_BIT {
            self.bits - SIGN_BIT > INFINITY_BITS
        } else {
            self.bits > INFINITY_BITS
        }
    }

    /// Compares the number with the one before it, exactly: no tolerance, and
    /// a NaN on either side counts as no change.
    #[verifier::when_used_as_spec(spec_change_from)]
    pub fn change_from(&self, prior: &Float) -> (change: Change)
        ensures
            change == self.spec_change_from(prior),
    {
        if self.is_nan() || prior.is_nan() {
            return Change::Unchanged;
        }
        let negative: bool = self.bits >= SIGN_BIT;
        let prior_negative: bool = prior.bits >= SIGN_BIT;
        let size: u64 = if negative { self.bits - SIGN_BIT } else { self.bits };
        let prior_size: u64 = if prior_negative { prior.bits - SIGN_BIT } else { prior.bits };
        if negative && prior_negative {
            if size < prior_size {
                Change::Up
            } else if size > prior_size {
                Change::Down
            } else {
                Change::Unchanged
            }
        } else if negative {
            if size == 0 && prior_size == 0 {
                Change::Unchanged
            } else {
                Change::Down
            }
        } else if prior_negative {
            if size == 0 && prior_size == 0 {
                Change::Unchanged
            } else {
                Change::Up
            }
        } else if size > prior_size {
            Change::Up
        } else if size < prior_size {
            Change::Down
        } else {
            Change::Unchanged
        }
    }
}

} // verus!
