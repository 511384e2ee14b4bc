//! The type-erased values that argument cells carry.
//!
//! A dynamic value pairs a payload with a runtime type identity. The set of
//! payload types is a closed union: each concrete type that can travel through
//! an argument cell has a [`Tag`], and the [`Dynamic`] trait maps between the
//! concrete type and its erased form.

use vstd::prelude::*;

verus! {

use vstd::pervasive::unreached;
use vstd::string::StringExecFns;

/// Runtime identity of the concrete types a dynamic value can hold.
#[derive(Clone, Copy, Debug, PartialEq, Eq, Structural)]
pub enum Tag {
    U32,
    I64,
    Bool,
    Char,
}

/// A type-erased value: exactly one payload, tagged with its concrete type.
#[derive(Clone, Copy, Debug, PartialEq, Eq, Structural)]
pub enum DynValue {
    U32(u32),
    I64(i64),
    Bool(bool),
    Char(char),
}

/// The human-readable name of the concrete type a tag stands for.
pub open spec fn tag_path(t: Tag) -> Seq<char> {
    match t {
        Tag::U32 => "u32"@,
        Tag::I64 => "i64"@,
        Tag::Bool => "bool"@,
        Tag::Char => "char"@,
    }
}

/// Builds the name of the concrete type a tag stands for.
pub fn tag_path_string(t: Tag) -> (r: String)
    ensures
        r@ == tag_path(t),
{
    match t {
        Tag::U32 => String::from_str("u32"),
        Tag::I64 => String::from_str("i64"),
        Tag::Bool => String::from_str("bool"),
        Tag::Char => String::from_str("char"),
    }
}

impl DynValue {
    /// The runtime type identity of the stored payload.
    pub open spec fn spec_tag(&self) -> Tag {
        match *self {
            DynValue::U32(_) => Tag::U32,
            DynValue::I64(_) => Tag::I64,
            DynValue::Bool(_) => Tag::Bool,
            DynValue::Char(_) => Tag::Char,
        }
    }

    /// Reports the runtime type identity of the stored payload.
    #[verifier::when_used_as_spec(spec_tag)]
    pub fn tag(&self) -> (t: Tag)
        ensures
            t == self.spec_tag(),
    {
        match *self {
            DynValue::U32(_) => Tag::U32,
            DynValue::I64(_) => Tag::I64,
            DynValue::Bool(_) => Tag::Bool,
            DynValue::Char(_) => Tag::Char,
        }
    }

    /// The name of the concrete type of the stored payload.
    pub open spec fn spec_type_path(&self) -> Seq<char> {
        tag_path(self.spec_tag())
    }

    /// Reports the name of the concrete type of the stored payload.
    pub fn type_path(&self) -> (r: String)
        ensures
            r@ == self.spec_type_path(),
    {
        tag_path_string(self.tag())
    }
}

/// A concrete type that can be erased into a [`DynValue`] and recovered from
/// one. Each implementing type owns exactly one [`Tag`], and `model` is an
/// injection from the type into the erased values carrying that tag.
pub trait Dynamic: Sized {
    /// The tag identifying this concrete type at runtime.
    spec fn dyn_tag() -> Tag;

    /// How a value of this type reads once erased.
    spec fn model(self) -> DynValue;

    /// An erased value of this type always carries this type's tag.
    proof fn lemma_model_tag(v: Self)
        ensures
            v.model().spec_tag() == Self::dyn_tag(),
    ;

    /// Erasure loses nothing: distinct values erase to distinct dynamic values.
    proof fn lemma_model_injective(a: Self, b: Self)
        requires
            a.model() == b.model(),
        ensures
            a == b,
    ;

    /// Reports this type's tag.
    fn runtime_tag() -> (t: Tag)
        ensures
            t == Self::dyn_tag(),
    ;

    /// Reports this type's human-readable name.
    fn type_path() -> (r: String)
        ensures
            r@ == tag_path(Self::dyn_tag()),
    ;

    /// Erases a value of this type.
    fn erase(self) -> (v: DynValue)
        ensures
            v == self.model(),
    ;

    /// Recovers the concrete value from an erased value known to carry this
    /// type's tag.
    fn take_from(v: DynValue) -> (r: Self)
        requires
            v.spec_tag() == Self::dyn_tag(),
        ensures
            r.model() == v,
    ;

    /// Borrows the concrete value inside an erased value known to carry this
    /// type's tag.
    fn borrow_from(v: &DynValue) -> (r: &Self)
        requires
            v.spec_tag() == Self::dyn_tag(),
        ensures
            (*r).model() == *v,
    ;

    /// Mutably borrows the concrete value inside an erased value known to
    /// carry this type's tag. Writes through the result land in the erased
    /// value.
    fn borrow_mut_from(v: &mut DynValue) -> (r: &mut Self)
        requires
            old(v).spec_tag() == Self::dyn_tag(),
        ensures
            (*r).model() == *old(v),
            *final(v) == (*final(r)).model(),
    ;
}

impl Dynamic for u32 {
    open spec fn dyn_tag() -> Tag {
        Tag::U32
    }

    open spec fn model(self) -> DynValue {
        DynValue::U32(self)
    }

    proof fn lemma_model_tag(v: Self) {
    }

    proof fn lemma_model_injective(a: Self, b: Self) {
    }

    fn runtime_tag() -> Tag {
        Tag::U32
    }

    fn type_path() -> String {
        tag_path_string(Tag::U32)
    }

    fn erase(self) -> DynValue {
        DynValue::U32(self)
    }

    fn take_from(v: DynValue) -> Self {
        match v {
            DynValue::U32(x) => x,
            _ => unreached(),
        }
    }

    fn borrow_from(v: &DynValue) -> &Self {
        match v {
            DynValue::U32(x) => x,
            _ => unreached(),
        }
    }

    fn borrow_mut_from(v: &mut DynValue) -> &mut Self {
        match v {
            DynValue::U32(x) => x,
            _ => unreached(),
        }
    }
}

impl Dynamic for i64 {
    open spec fn dyn_tag() -> Tag {
        Tag::I64
    }

    open spec fn model(self) -> DynValue {
        DynValue::I64(self)
    }

    proof fn lemma_model_tag(v: Self) {
    }

    proof fn lemma_model_injective(a: Self, b: Self) {
    }

    fn runtime_tag() -> Tag {
        Tag::I64
    }

    fn type_path() -> String {
        tag_path_string(Tag::I64)
    }

    fn erase(self) -> DynValue {
        DynValue::I64(self)
    }

    fn take_from(v: DynValue) -> Self {
        match v {
            DynValue::I64(x) => x,
            _ => unreached(),
        }
    }

    fn borrow_from(v: &DynValue) -> &Self {
        match v {
            DynValue::I64(x) => x,
            _ => unreached(),
        }
    }

    fn borrow_mut_from(v: &mut DynValue) -> &mut Self {
        match v {
            DynValue::I64(x) => x,
            _ => unreached(),
        }
    }
}

impl Dynamic for bool {
    open spec fn dyn_tag() -> Tag {
        Tag::Bool
    }

    open spec fn model(self) -> DynValue {
        DynValue::Bool(self)
    }

    proof fn lemma_model_tag(v: Self) {
    }

    proof fn lemma_model_injective(a: Self, b: Self) {
    }

    fn runtime_tag() -> Tag {
        Tag::Bool
    }

    fn type_path() -> String {
        tag_path_string(Tag::Bool)
    }

    fn erase(self) -> DynValue {
        DynValue::Bool(self)
    }

    fn take_from(v: DynValue) -> Self {
        match v {
            DynValue::Bool(x) => x,
            _ => unreached(),
        }
    }

    fn borrow_from(v: &DynValue) -> &Self {
        match v {
            DynValue::Bool(x) => x,
            _ => unreached(),
        }
    }

    fn borrow_mut_from(v: &mut DynValue) -> &mut Self {
        match v {
            DynValue::Bool(x) => x,
            _ => unreached(),
        }
    }
}

impl Dynamic for char {
    open spec fn dyn_tag() -> Tag {
        Tag::Char
    }

    open spec fn model(self) -> DynValue {
        DynValue::Char(self)
    }

    proof fn lemma_model_tag(v: Self) {
    }

    proof fn lemma_model_injective(a: Self, b: Self) {
    }

    fn runtime_tag() -> Tag {
        Tag::Char
    }

    fn type_path() -> String {
        tag_path_string(Tag::Char)
    }

    fn erase(self) -> DynValue {
        DynValue::Char(self)
    }

    fn take_from(v: DynValue) -> Self {
        match v {
            DynValue::Char(x) => x,
            _ => unreached(),
        }
    }

    fn borrow_from(v: &DynValue) -> &Self {
        match v {
            DynValue::Char(x) => x,
            _ => unreached(),
        }
    }

    fn borrow_mut_from(v: &mut DynValue) -> &mut Self {
        match v {
            DynValue::Char(x) => x,
            _ => unreached(),
        }
    }
}

} // verus!
