//! Construction and validation errors reported by the families.
use vstd::prelude::*;

verus! {

/// Errors for family construction and validation.
///
/// The variants carry the same information as the corresponding model errors
/// of the modelling core: a parameter name with the invariant it must meet, or
/// the size computation that overflowed.
#[derive(Debug, Clone, Copy, PartialEq, Eq)]
pub enum ModelError {
    /// A scalar model parameter has an invalid value.
    InvalidParameter {
        /// Parameter name.
        parameter: &'static str,
        /// Expected invariant.
        expected: &'static str,
    },
    /// A size computation does not fit in `usize`.
    ArithmeticOverflow {
        /// Description of the computed size.
        context: &'static str,
    },
}

} // verus!
