//! Errors reported when a structured value cannot be extracted.

use vstd::prelude::*;

verus! {

/// Why extracting a partial value from a structured value failed.
#[derive(Clone, Copy, PartialEq, Eq, Debug)]
pub enum ExtractError {
    /// The structured value's tag does not match what the resolved strategy
    /// expects; the payload names the expected kind.
    CommandStructureMismatch(&'static str),
    /// The value is a well-formed number but lies outside the range of the
    /// target integer type.
    IntegerOutOfBounds,
}

} // verus!
