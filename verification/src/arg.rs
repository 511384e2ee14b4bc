//! The argument cell and its extraction protocol.

use vstd::prelude::*;

verus! {

use crate::error::ArgError;
use crate::error::ErrorModel;
use crate::ownership::Ownership;
use crate::value::tag_path;
use crate::value::DynValue;
use crate::value::Dynamic;
use crate::value::Tag;

/// An argument value: a type-erased payload together with how it was
/// supplied. An owned payload lives in the cell; a borrowed one lives with
/// the caller, which must keep it alive for as long as the cell exists.
#[derive(Debug)]
pub enum ArgValue<'a> {
    /// The cell owns the payload outright.
    Owned(Box<DynValue>),
    /// The payload is an immutable borrow of data the caller still owns.
    Ref(&'a DynValue),
    /// The payload is an exclusive mutable borrow of data the caller still
    /// owns.
    Mut(&'a mut DynValue),
}

/// The mathematical content of an [`ArgValue`]: the ownership category and
/// the payload as currently stored.
pub enum ArgValueModel {
    Owned(DynValue),
    Ref(DynValue),
    Mut(DynValue),
}

impl ArgValueModel {
    /// The ownership category of the value.
    pub open spec fn ownership(self) -> Ownership {
        match self {
            ArgValueModel::Owned(_) => Ownership::Owned,
            ArgValueModel::Ref(_) => Ownership::Ref,
            ArgValueModel::Mut(_) => Ownership::Mut,
        }
    }

    /// The payload, whichever category holds it.
    pub open spec fn payload(self) -> DynValue {
        match self {
            ArgValueModel::Owned(v) => v,
            ArgValueModel::Ref(v) => v,
            ArgValueModel::Mut(v) => v,
        }
    }
}

impl<'a> View for ArgValue<'a> {
    type V = ArgValueModel;

    open spec fn view(&self) -> ArgValueModel {
        match *self {
            ArgValue::Owned(b) => ArgValueModel::Owned(*b),
            ArgValue::Ref(r) => ArgValueModel::Ref(*r),
            ArgValue::Mut(m) => ArgValueModel::Mut(*m),
        }
    }
}

impl<'a> core::ops::Deref for ArgValue<'a> {
    type Target = DynValue;

    /// Uniform read-only access to the underlying dynamic value, whichever
    /// category holds it. Supports inspection, such as reading the payload's
    /// runtime type name, without consuming anything.
    fn deref(&self) -> (r: &DynValue)
        ensures
            *r == self@.payload(),
    {
        match self {
            ArgValue::Owned(b) => b,
            ArgValue::Ref(r) => r,
            ArgValue::Mut(m) => m,
        }
    }
}

/// An argument cell: an argument value bound to its position in the call.
/// Built once per argument, consumed at most once; the extraction methods
/// take the cell by value, so a consumed cell no longer exists.
#[derive(Debug)]
pub struct Arg<'a> {
    index: usize,
    value: ArgValue<'a>,
}

/// The mathematical content of an [`Arg`].
pub struct ArgModel {
    pub index: usize,
    pub value: ArgValueModel,
}

impl<'a> View for Arg<'a> {
    type V = ArgModel;

    closed spec fn view(&self) -> ArgModel {
        ArgModel { index: self.index, value: self.value@ }
    }
}

/// What an extraction produces: the payload on success, an error otherwise.
pub enum TakeOutcome {
    Taken(DynValue),
    Failed(ErrorModel),
}

/// What extracting from a cell with content `a`, requesting access mode
/// `expected` at the concrete type tagged `tag`, must produce. The ownership
/// category is checked first: a caller cannot even attempt a type check
/// against the wrong category of storage.
pub open spec fn take_outcome(a: ArgModel, expected: Ownership, tag: Tag) -> TakeOutcome {
    if a.value.ownership() != expected {
        TakeOutcome::Failed(ErrorModel::InvalidOwnership {
            index: a.index,
            expected,
            received: a.value.ownership(),
        })
    } else if a.value.payload().spec_tag() != tag {
        TakeOutcome::Failed(ErrorModel::UnexpectedType {
            index: a.index,
            expected: tag_path(tag),
            received: a.value.payload().spec_type_path(),
        })
    } else {
        TakeOutcome::Taken(a.value.payload())
    }
}

impl<'a> Arg<'a> {
    /// The argument value as stored, reference identity included.
    pub closed spec fn stored(self) -> ArgValue<'a> {
        self.value
    }

    /// The view reads the stored value.
    pub proof fn lemma_view_stored(self)
        ensures
            self@.value == self.stored()@,
    {
    }

    /// Create a new cell with the given index and value.
    pub fn new(index: usize, value: ArgValue<'a>) -> (r: Self)
        ensures
            r@.index == index,
            r.stored() == value,
            r@.value == value@,
    {
        Arg { index, value }
    }

    /// The position of the argument in the call.
    pub fn index(&self) -> (i: usize)
        ensures
            i == self@.index,
    {
        self.index
    }

    /// Renumber the argument. Meant for the collector that owns the list,
    /// when earlier arguments are removed or reordered; the stored value is
    /// untouched.
    pub fn set_index(&mut self, index: usize)
        ensures
            final(self)@.index == index,
            final(self).stored() == old(self).stored(),
            final(self)@.value == old(self)@.value,
    {
        self.index = index;
    }

    /// The value of the argument, for inspection without consuming.
    pub fn value(&self) -> (r: &ArgValue<'a>)
        ensures
            *r == self.stored(),
            r@ == self@.value,
    {
        &self.value
    }

    /// Take the value of the argument as it was supplied, consuming the cell.
    pub fn take_value(self) -> (r: ArgValue<'a>)
        ensures
            r == self.stored(),
            r@ == self@.value,
    {
        self.value
    }

    /// Consume the cell and extract the payload in the shape `T`: an owned
    /// value, a borrow, or a mutable borrow, as the requested type itself
    /// says. The shape determines the ownership category the cell must hold;
    /// the checks and errors are exactly those of the shape's specific take.
    pub fn take<T: FromArg>(self) -> (r: Result<T::This<'a>, ArgError>)
        ensures
            (match r {
                Ok(t) => TakeOutcome::Taken(T::this_model(t)),
                Err(e) => TakeOutcome::Failed(e@),
            }) == take_outcome(self@, T::required_ownership(), T::required_tag()),
            self.stored() is Mut && r is Err ==> *final(self.stored()->Mut_0) == *(
            self.stored()->Mut_0),
    {
        T::from_arg(self)
    }

    /// Consume the cell and extract the owned payload at type `T`. Fails
    /// with an ownership mismatch unless the argument was supplied owned,
    /// then with a type mismatch unless the payload is a `T`.
    pub fn take_owned<T: Dynamic>(self) -> (r: Result<T, ArgError>)
        ensures
            (match r {
                Ok(t) => TakeOutcome::Taken(t.model()),
                Err(e) => TakeOutcome::Failed(e@),
            }) == take_outcome(self@, Ownership::Owned, T::dyn_tag()),
            self.stored() is Mut ==> *final(self.stored()->Mut_0) == *(self.stored()->Mut_0),
    {
        match self.value {
            ArgValue::Owned(b) => {
                let v: DynValue = *b;
                if v.tag() == T::runtime_tag() {
                    Ok(T::take_from(v))
                } else {
                    Err(ArgError::UnexpectedType {
                        index: self.index,
                        expected: T::type_path(),
                        received: v.type_path(),
                    })
                }
            },
            ArgValue::Ref(_) => Err(ArgError::InvalidOwnership {
                index: self.index,
                expected: Ownership::Owned,
                received: Ownership::Ref,
            }),
            ArgValue::Mut(_) => Err(ArgError::InvalidOwnership {
                index: self.index,
                expected: Ownership::Owned,
                received: Ownership::Mut,
            }),
        }
    }

    /// Consume the cell and borrow the payload at type `T`. Fails with an
    /// ownership mismatch unless the argument was supplied as an immutable
    /// borrow, then with a type mismatch unless the payload is a `T`.
    pub fn take_ref<T: Dynamic>(self) -> (r: Result<&'a T, ArgError>)
        ensures
            (match r {
                Ok(t) => TakeOutcome::Taken((*t).model()),
                Err(e) => TakeOutcome::Failed(e@),
            }) == take_outcome(self@, Ownership::Ref, T::dyn_tag()),
            self.stored() is Mut ==> *final(self.stored()->Mut_0) == *(self.stored()->Mut_0),
    {
        match self.value {
            ArgValue::Owned(_) => Err(ArgError::InvalidOwnership {
                index: self.index,
                expected: Ownership::Ref,
                received: Ownership::Owned,
            }),
            ArgValue::Ref(v) => {
                if v.tag() == T::runtime_tag() {
                    Ok(T::borrow_from(v))
                } else {
                    Err(ArgError::UnexpectedType {
                        index: self.index,
                        expected: T::type_path(),
                        received: v.type_path(),
                    })
                }
            },
            ArgValue::Mut(_) => Err(ArgError::InvalidOwnership {
                index: self.index,
                expected: Ownership::Ref,
                received: Ownership::Mut,
            }),
        }
    }

    /// Consume the cell and mutably borrow the payload at type `T`. Fails
    /// with an ownership mismatch unless the argument was supplied as a
    /// mutable borrow, then with a type mismatch unless the payload is a
    /// `T`. On success, writes through the result land in the caller's data;
    /// on failure the caller's data is untouched.
    pub fn take_mut<T: Dynamic>(self) -> (r: Result<&'a mut T, ArgError>)
        ensures
            (match r {
                Ok(m) => TakeOutcome::Taken((*m).model()),
                Err(e) => TakeOutcome::Failed(e@),
            }) == take_outcome(self@, Ownership::Mut, T::dyn_tag()),
            r is Ok ==> *final(self.stored()->Mut_0) == (*final(r->Ok_0)).model(),
            r is Err && self.stored() is Mut ==> *final(self.stored()->Mut_0) == *(
            self.stored()->Mut_0),
    {
        match self.value {
            ArgValue::Owned(_) => Err(ArgError::InvalidOwnership {
                index: self.index,
                expected: Ownership::Mut,
                received: Ownership::Owned,
            }),
            ArgValue::Ref(_) => Err(ArgError::InvalidOwnership {
                index: self.index,
                expected: Ownership::Mut,
                received: Ownership::Ref,
            }),
            ArgValue::Mut(m) => {
                if m.tag() == T::runtime_tag() {
                    Ok(T::borrow_mut_from(m))
                } else {
                    Err(ArgError::UnexpectedType {
                        index: self.index,
                        expected: T::type_path(),
                        received: m.type_path(),
                    })
                }
            },
        }
    }
}

/// A shape in which an argument can be extracted: an owned `T`, a borrowed
/// `&T`, or a mutably borrowed `&mut T`. The shape alone determines which
/// ownership category the cell must hold and which concrete type the payload
/// must have, so a single call can request "give me a `u32`" or "give me a
/// `&u32`" and the right checks follow from the type.
pub trait FromArg {
    /// The extracted form, carrying the cell's lifetime.
    type This<'a>;

    /// The ownership category a request for this shape demands.
    spec fn required_ownership() -> Ownership;

    /// The concrete-type tag a request for this shape demands.
    spec fn required_tag() -> Tag;

    /// The extracted form read back as a dynamic value.
    spec fn this_model<'a>(this: Self::This<'a>) -> DynValue;

    /// Consume the cell and extract in this shape. On failure, the data
    /// behind a mutably-borrowed cell is left untouched.
    fn from_arg<'a>(arg: Arg<'a>) -> (r: Result<Self::This<'a>, ArgError>)
        ensures
            (match r {
                Ok(t) => TakeOutcome::Taken(Self::this_model(t)),
                Err(e) => TakeOutcome::Failed(e@),
            }) == take_outcome(arg@, Self::required_ownership(), Self::required_tag()),
            arg.stored() is Mut && r is Err ==> *final(arg.stored()->Mut_0) == *(
            arg.stored()->Mut_0),
    ;
}

impl FromArg for u32 {
    type This<'a> = u32;

    open spec fn required_ownership() -> Ownership {
        Ownership::Owned
    }

    open spec fn required_tag() -> Tag {
        Tag::U32
    }

    open spec fn this_model<'a>(this: u32) -> DynValue {
        this.model()
    }

    fn from_arg<'a>(arg: Arg<'a>) -> Result<u32, ArgError> {
        arg.take_owned::<u32>()
    }
}

impl FromArg for i64 {
    type This<'a> = i64;

    open spec fn required_ownership() -> Ownership {
        Ownership::Owned
    }

    open spec fn required_tag() -> Tag {
        Tag::I64
    }

    open spec fn this_model<'a>(this: i64) -> DynValue {
        this.model()
    }

    fn from_arg<'a>(arg: Arg<'a>) -> Result<i64, ArgError> {
        arg.take_owned::<i64>()
    }
}

impl FromArg for bool {
    type This<'a> = bool;

    open spec fn required_ownership() -> Ownership {
        Ownership::Owned
    }

    open spec fn required_tag() -> Tag {
        Tag::Bool
    }

    open spec fn this_model<'a>(this: bool) -> DynValue {
        this.model()
    }

    fn from_arg<'a>(arg: Arg<'a>) -> Result<bool, ArgError> {
        arg.take_owned::<bool>()
    }
}

impl FromArg for char {
    type This<'a> = char;

    open spec fn required_ownership() -> Ownership {
        Ownership::Owned
    }

    open spec fn required_tag() -> Tag {
        Tag::Char
    }

    open spec fn this_model<'a>(this: char) -> DynValue {
        this.model()
    }

    fn from_arg<'a>(arg: Arg<'a>) -> Result<char, ArgError> {
        arg.take_owned::<char>()
    }
}

impl<T: Dynamic> FromArg for &'static T {
    type This<'a> = &'a T;

    open spec fn required_ownership() -> Ownership {
        Ownership::Ref
    }

    open spec fn required_tag() -> Tag {
        T::dyn_tag()
    }

    open spec fn this_model<'a>(this: &'a T) -> DynValue {
        (*this).model()
    }

    fn from_arg<'a>(arg: Arg<'a>) -> Result<&'a T, ArgError> {
        arg.take_ref::<T>()
    }
}

impl<T: Dynamic> FromArg for &'static mut T {
    type This<'a> = &'a mut T;

    open spec fn required_ownership() -> Ownership {
        Ownership::Mut
    }

    open spec fn required_tag() -> Tag {
        T::dyn_tag()
    }

    open spec fn this_model<'a>(this: &'a mut T) -> DynValue {
        (*this).model()
    }

    fn from_arg<'a>(arg: Arg<'a>) -> Result<&'a mut T, ArgError> {
        arg.take_mut::<T>()
    }
}

} // verus!
