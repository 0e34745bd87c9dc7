//! The identity of a core (hart), as the peripherals need it: a small integer
//! below a declared maximum.

use crate::error::Error;
use crate::index::RangedIndex;
use vstd::prelude::*;

verus! {

/// A type whose values name the harts of a target.
///
/// Each hart has a number, no number exceeds the declared maximum, and a
/// number converts back to the hart it came from.
pub trait HartIdNumber: Copy {
    /// The highest number that a hart of the target has.
    spec fn max_hart_id_number_spec() -> usize;

    /// The number of the hart.
    spec fn number_spec(self) -> usize;

    /// The highest number that a hart of the target has.
    fn max_hart_id_number() -> (max: usize)
        ensures
            max == Self::max_hart_id_number_spec(),
    ;

    /// Converts the hart to its number, which never exceeds the maximum.
    fn number(self) -> (number: usize)
        ensures
            number == self.number_spec(),
            number <= Self::max_hart_id_number_spec(),
    ;

    /// Tries to convert a number to the hart that has it. A number above the
    /// maximum belongs to no hart.
    fn from_number(number: usize) -> (res: Result<Self, Error>)
        ensures
            match res {
                Ok(hart) => hart.number_spec() == number && number
                    <= Self::max_hart_id_number_spec(),
                Err(e) => e is OutOfBounds,
            },
            number > Self::max_hart_id_number_spec() ==> res is Err,
    ;
}

/// The harts `0` to `MAX` of a target whose harts are numbered without gaps.
impl<const MAX: usize> HartIdNumber for RangedIndex<0, MAX> {
    open spec fn max_hart_id_number_spec() -> usize {
        MAX
    }

    open spec fn number_spec(self) -> usize {
        self@
    }

    fn max_hart_id_number() -> (max: usize) {
        MAX
    }

    fn number(self) -> (number: usize) {
        self.into_inner()
    }

    fn from_number(number: usize) -> (res: Result<Self, Error>)
        ensures
            number <= MAX ==> res is Ok,
    {
        Self::try_from(number)
    }
}

} // verus!
