//! The failures that fallible constructors and accessors report.

use vstd::prelude::*;

verus! {

/// The error variants of the library.
#[derive(Clone, Copy, Debug, PartialEq, Eq)]
pub enum Error {
    /// An index or value lies outside its declared valid range.
    OutOfBounds,
    /// An enumerated field holds a value that none of its variants stands for.
    InvalidFieldVariant {
        /// Name of the field that was read.
        field: &'static str,
        /// The raw integer found in the field.
        value: usize,
    },
}

} // verus!
