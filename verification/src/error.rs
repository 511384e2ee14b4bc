//! Errors produced when an extraction request does not match the cell.

use vstd::prelude::*;

verus! {

use crate::ownership::Ownership;

/// Why an extraction failed. Both kinds name the offending argument by its
/// position; neither is recoverable by the cell, which is already consumed.
#[derive(Debug)]
pub enum ArgError {
    /// The requested access mode does not match how the argument was
    /// supplied. Checked before the concrete type, since no type check can
    /// even be attempted against the wrong category of storage.
    InvalidOwnership { index: usize, expected: Ownership, received: Ownership },
    /// The access mode matched but the stored value is of another concrete
    /// type. `received` names the runtime type of the stored value.
    UnexpectedType { index: usize, expected: String, received: String },
}

/// The mathematical content of an [`ArgError`], with type names read as
/// character sequences.
pub enum ErrorModel {
    InvalidOwnership { index: usize, expected: Ownership, received: Ownership },
    UnexpectedType { index: usize, expected: Seq<char>, received: Seq<char> },
}

impl ErrorModel {
    /// The argument position the error reports, whichever kind it is.
    pub open spec fn index(self) -> usize {
        match self {
            ErrorModel::InvalidOwnership { index, .. } => index,
            ErrorModel::UnexpectedType { index, .. } => index,
        }
    }
}

impl View for ArgError {
    type V = ErrorModel;

    open spec fn view(&self) -> ErrorModel {
        match *self {
            ArgError::InvalidOwnership { index, expected, received } => (ErrorModel::InvalidOwnership {
                index,
                expected,
                received,
            }),
            ArgError::UnexpectedType { index, expected, received } => (ErrorModel::UnexpectedType {
                index,
                expected: expected@,
                received: received@,
            }),
        }
    }
}

impl ArgError {
    /// Reports the argument position the error carries.
    pub fn index(&self) -> (i: usize)
        ensures
            i == self@.index(),
    {
        match self {
            ArgError::InvalidOwnership { index, .. } => *index,
            ArgError::UnexpectedType { index, .. } => *index,
        }
    }
}

} // verus!
