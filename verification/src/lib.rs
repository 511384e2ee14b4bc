//! Typed argument cells for dynamic function invocation.
//!
//! A caller that assembles an argument list for a call whose signature is not
//! known at compile time erases each argument into a dynamic value, tags it
//! with how it was supplied (owned, borrowed, or mutably borrowed), and pairs
//! it with its position in the call. The callee then consumes each cell,
//! asking for a concrete type and access mode; the cell checks both before
//! releasing the value, and reports a structured error otherwise.

use vstd::prelude::*;

mod arg;
mod error;
mod laws;
mod ownership;
mod value;

pub use arg::take_outcome;
pub use arg::Arg;
pub use arg::ArgModel;
pub use arg::ArgValue;
pub use arg::ArgValueModel;
pub use arg::FromArg;
pub use arg::TakeOutcome;
pub use error::ArgError;
pub use error::ErrorModel;
pub use laws::lemma_failure_keeps_index;
pub use laws::lemma_owned_round_trip;
pub use laws::lemma_owned_take_on_borrowed;
pub use laws::lemma_tag_path_injective;
pub use laws::lemma_type_mismatch_names_stored_type;
pub use ownership::Ownership;
pub use value::tag_path;
pub use value::tag_path_string;
pub use value::DynValue;
pub use value::Dynamic;
pub use value::Tag;

verus! {

} // verus!
