//! The guarantees of the extraction protocol, stated as theorems over the
//! cell and error models that the extraction contracts use.

use vstd::prelude::*;

verus! {

use crate::arg::take_outcome;
use crate::arg::ArgModel;
use crate::arg::ArgValueModel;
use crate::arg::TakeOutcome;
use crate::error::ErrorModel;
use crate::ownership::Ownership;
use crate::value::tag_path;
use crate::value::Dynamic;
use crate::value::Tag;

/// Law: an owned cell built from a value of type `T` round-trips exactly
/// through an owned take at `T`. The outcome is the erased value itself,
/// and no other value of `T` erases to it, so the caller gets back
/// precisely the value that was put in.
pub proof fn lemma_owned_round_trip<T: Dynamic>(v: T, index: usize)
    ensures
        take_outcome(
            ArgModel { index, value: ArgValueModel::Owned(v.model()) },
            Ownership::Owned,
            T::dyn_tag(),
        ) == TakeOutcome::Taken(v.model()),
        forall|w: T| (#[trigger] w.model()) == v.model() ==> w == v,
{
    T::lemma_model_tag(v);
    assert forall|w: T| (#[trigger] w.model()) == v.model() implies w == v by {
        T::lemma_model_injective(w, v);
    }
}

/// Law: an owned take on a borrowed cell, immutable or mutable, always
/// fails with an ownership mismatch reporting expected `Owned` and the true
/// stored category — never with a type mismatch, whatever concrete type was
/// requested, even one the payload would have matched.
pub proof fn lemma_owned_take_on_borrowed(a: ArgModel, tag: Tag)
    requires
        a.value.ownership() != Ownership::Owned,
    ensures
        take_outcome(a, Ownership::Owned, tag) == TakeOutcome::Failed(
            ErrorModel::InvalidOwnership {
                index: a.index,
                expected: Ownership::Owned,
                received: a.value.ownership(),
            },
        ),
{
}

/// Law: a failed extraction reports exactly the index the cell carried when
/// it was consumed, whichever failure kind and whatever was requested.
pub proof fn lemma_failure_keeps_index(a: ArgModel, expected: Ownership, tag: Tag)
    ensures
        take_outcome(a, expected, tag) matches TakeOutcome::Failed(e) ==> e.index() == a.index,
{
}

/// Law: a type mismatch names the stored payload's own runtime type as the
/// received type — which, the tags differing, is never the name of the
/// requested type.
pub proof fn lemma_type_mismatch_names_stored_type(a: ArgModel, expected: Ownership, tag: Tag)
    requires
        a.value.ownership() == expected,
        a.value.payload().spec_tag() != tag,
    ensures
        take_outcome(a, expected, tag) == TakeOutcome::Failed(
            ErrorModel::UnexpectedType {
                index: a.index,
                expected: tag_path(tag),
                received: a.value.payload().spec_type_path(),
            },
        ),
        take_outcome(a, expected, tag)->Failed_0->UnexpectedType_received != tag_path(tag),
{
    lemma_tag_path_injective(a.value.payload().spec_tag(), tag);
}

/// Distinct tags name distinct types.
pub proof fn lemma_tag_path_injective(a: Tag, b: Tag)
    requires
        a != b,
    ensures
        tag_path(a) != tag_path(b),
{
    reveal_strlit("u32");
    reveal_strlit("i64");
    reveal_strlit("bool");
    reveal_strlit("char");
    assert(tag_path(Tag::U32)[0] == 'u');
    assert(tag_path(Tag::I64)[0] == 'i');
    assert(tag_path(Tag::Bool)[0] == 'b');
    assert(tag_path(Tag::Char)[0] == 'c');
}

} // verus!
