//! Errors for validation and reference resolution.

use vstd::prelude::*;

verus! {

/// A structural precondition failed while building or converting a value.
#[derive(Clone, Debug, PartialEq, Eq)]
pub enum QBTypeError {
    /// A value under construction violated a structural precondition.
    ValidationError(String),
    /// A specific required field is absent for an operation that strictly
    /// needs it.
    MissingField(String),
    /// Reference construction was attempted on a record lacking an id.
    QBToRefError,
}

} // verus!
