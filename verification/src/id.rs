//! Identifiers of records.
use vstd::prelude::*;
use vstd::std_specs::convert::FromSpecImpl;
use crate::model::Model;
use crate::util::decimal::{decimal, signed_decimal, unsigned_decimal};

verus! {

/// The type of identifier that a record has where none is named.
pub type DefaultType = String;

/// What the value inside an [`Id`] must offer: a canonical string form, which
/// is all that a filter keeps of an identifier.
pub trait IdGuard: Clone + PartialEq {
    /// The canonical string form of the value.
    fn to_canonical(&self) -> String;
}

/// An identifier that the database can generate.
pub trait GeneratedIdGuard: IdGuard {

}

impl IdGuard for String {
    /// The string itself.
    fn to_canonical(&self) -> (s: String)
        ensures
            s@ == self@,
    {
        self.clone()
    }
}

impl IdGuard for u32 {
    /// The decimal notation of the number.
    fn to_canonical(&self) -> (s: String)
        ensures
            s@ == decimal(*self as int),
    {
        unsigned_decimal(*self as u64)
    }
}

impl IdGuard for u64 {
    /// The decimal notation of the number.
    fn to_canonical(&self) -> (s: String)
        ensures
            s@ == decimal(*self as int),
    {
        unsigned_decimal(*self)
    }
}

impl IdGuard for i32 {
    /// The decimal notation of the number.
    fn to_canonical(&self) -> (s: String)
        ensures
            s@ == decimal(*self as int),
    {
        signed_decimal(*self as i64)
    }
}

impl IdGuard for i64 {
    /// The decimal notation of the number.
    fn to_canonical(&self) -> (s: String)
        ensures
            s@ == decimal(*self as int),
    {
        signed_decimal(*self)
    }
}

/// The identifier of a record of type `M`: a value of type `I`, or none while
/// the record has not been stored.
#[derive(Debug, PartialEq)]
pub struct Id<M: Model, I: IdGuard = <M as Model>::Id> {
    /// The value of the identifier, if it has one.
    pub inner: Option<I>,
    pub marker: std::marker::PhantomData<M>,
}

impl<M: Model, I: IdGuard> Id<M, I> {
    /// Whether the identifier holds no value.
    pub fn is_none(&self) -> (b: bool)
        ensures
            b == (self.inner is None),
    {
        self.inner.is_none()
    }

}

impl<M: Model, I: GeneratedIdGuard> Id<M, I> {
    /// The identifier without a value, which the database is to generate.
    pub fn none() -> (id: Self)
        ensures
            id.inner is None,
    {
        return Self { inner: None, marker: std::marker::PhantomData };
    }
}

impl<M: Model, I: IdGuard> Clone for Id<M, I> {
    /// A copy that holds a clone of the value, or none.
    fn clone(&self) -> (id: Self)
        ensures
            match (self.inner, id.inner) {
                (Some(a), Some(b)) => cloned(a, b),
                (None, None) => true,
                _ => false,
            },
    {
        Self {
            inner: match &self.inner {
                Some(i) => Some(i.clone()),
                None => None,
            },
            marker: std::marker::PhantomData,
        }
    }
}

impl<M: Model, I: IdGuard> Default for Id<M, I> {
    /// The identifier without a value.
    fn default() -> (id: Self)
        ensures
            id.inner is None,
    {
        Self { inner: None, marker: std::marker::PhantomData }
    }
}

impl<M: Model, I: IdGuard> From<I> for Id<M, I> {
    /// The identifier that holds `id`.
    fn from(id: I) -> (r: Self) {
        Self { inner: Some(id), marker: std::marker::PhantomData }
    }
}

impl<M: Model, I: IdGuard> FromSpecImpl<I> for Id<M, I> {
    open spec fn obeys_from_spec() -> bool {
        true
    }

    open spec fn from_spec(id: I) -> Self {
        Id { inner: Some(id), marker: std::marker::PhantomData }
    }
}

} // verus!
