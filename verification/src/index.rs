//! An index type restricted to a range that is fixed at compile time.

use crate::error::Error;
use vstd::prelude::*;
use vstd::std_specs::convert::TryFromSpecImpl;

verus! {

/// The value of `val` saturated to the nearest bound of `[min, max]`.
///
/// The lower bound is tried first, so with `min > max` every input below or
/// at `min` yields `min` and every other input yields `max`.
pub open spec fn clamp(val: usize, min: usize, max: usize) -> usize {
    if val <= min {
        min
    } else if val >= max {
        max
    } else {
        val
    }
}

/// An index restricted to the inclusive range `[MIN, MAX]`.
///
/// Whenever the range is not empty, every value of this type lies in it.
#[derive(Clone, Copy, Debug, PartialEq, Eq)]
pub struct RangedIndex<const MIN: usize, const MAX: usize>(usize);

impl<const MIN: usize, const MAX: usize> View for RangedIndex<MIN, MAX> {
    type V = usize;

    closed spec fn view(&self) -> usize {
        self.0
    }
}

impl<const MIN: usize, const MAX: usize> RangedIndex<MIN, MAX> {
    #[verifier::type_invariant]
    spec fn in_range(self) -> bool {
        MIN <= MAX ==> MIN <= self.0 <= MAX
    }

    /// Creates a new [`RangedIndex`] holding the lower bound.
    pub fn new() -> (idx: Self)
        ensures
            idx@ == MIN,
    {
        Self(MIN)
    }

    /// Creates a [`RangedIndex`] from its inner representation, never failing.
    ///
    /// A value outside the valid range is clamped to the nearest in-range value.
    pub fn from_inner(val: usize) -> (idx: Self)
        ensures
            idx@ == clamp(val, MIN, MAX),
    {
        if val <= MIN {
            Self(MIN)
        } else if val >= MAX {
            Self(MAX)
        } else {
            Self(val)
        }
    }

    /// Converts the [`RangedIndex`] into its inner representation.
    pub fn into_inner(self) -> (val: usize)
        ensures
            val == self@,
            MIN <= MAX ==> MIN <= val <= MAX,
    {
        proof {
            use_type_invariant(&self);
        }
        self.0
    }

    /// Two indices with the same inner value are the same index.
    pub proof fn lemma_view_injective(a: Self, b: Self)
        requires
            a@ == b@,
        ensures
            a == b,
    {
    }
}

impl<const MIN: usize, const MAX: usize> TryFrom<usize> for RangedIndex<MIN, MAX> {
    type Error = Error;

    /// Creates a [`RangedIndex`] from `val`, failing exactly when `val` lies
    /// outside `[MIN, MAX]`.
    fn try_from(val: usize) -> (res: Result<Self, Error>)
        ensures
            match res {
                Ok(idx) => MIN <= val <= MAX && idx@ == val,
                Err(e) => !(MIN <= val <= MAX) && e is OutOfBounds,
            },
    {
        if MIN <= val && val <= MAX {
            Ok(Self(val))
        } else {
            Err(Error::OutOfBounds)
        }
    }
}

impl<const MIN: usize, const MAX: usize> TryFromSpecImpl<usize> for RangedIndex<MIN, MAX> {
    open spec fn obeys_try_from_spec() -> bool {
        true
    }

    closed spec fn try_from_spec(val: usize) -> Result<Self, Error> {
        if MIN <= val <= MAX {
            Ok(RangedIndex(val))
        } else {
            Err(Error::OutOfBounds)
        }
    }
}

/// On a range that is not empty, clamping lands inside the range, leaves
/// in-range values untouched and sends every other value to the nearer bound.
pub proof fn lemma_clamp_in_range(val: usize, min: usize, max: usize)
    requires
        min <= max,
    ensures
        min <= clamp(val, min, max) <= max,
        min <= val <= max ==> clamp(val, min, max) == val,
        val < min ==> clamp(val, min, max) == min,
        val > max ==> clamp(val, min, max) == max,
{
}

} // verus!
