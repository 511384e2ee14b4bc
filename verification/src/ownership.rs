//! The three ways an argument can be supplied to a dynamic call.

use vstd::prelude::*;

verus! {

/// How an argument value relates to the data it carries: owned outright,
/// immutably borrowed, or mutably borrowed. A pure descriptor used for
/// policy checks and error reporting; the category itself is always derived
/// from which variant of the argument value is present.
#[derive(Clone, Copy, Debug, PartialEq, Eq, Structural)]
pub enum Ownership {
    /// The value is owned by the cell and transfers to whoever consumes it.
    Owned,
    /// The value is an immutable borrow of data the caller still owns.
    Ref,
    /// The value is an exclusive mutable borrow of data the caller still owns.
    Mut,
}

} // verus!
