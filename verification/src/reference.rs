//! References from one record to another.
use vstd::prelude::*;
use crate::id::Id;
use crate::model::Model;

verus! {

/// A reference to a record of type `M`: its identifier alone, or the record
/// itself where it has been loaded.
pub enum Ref<M: Model> {
    Id(Id<M, <M as Model>::Id>),
    Model(M),
}

impl<M: Model> Ref<M> {
    /// The identifier of the record referred to: the one held, or the one
    /// that the loaded record gives as its own.
    pub fn id(&self) -> (id: &Id<M, <M as Model>::Id>)
        ensures
            match self {
                Ref::Id(held) => id == held,
                Ref::Model(model) => call_ensures(M::id, (model,), id),
            },
    {
        match self {
            Self::Id(id) => id,
            Self::Model(model) => model.id(),
        }
    }

    /// The identifier of the record referred to, by value: the one held, or
    /// a clone of the one that the loaded record gives as its own.
    pub fn take_id(self) -> (id: Id<M, <M as Model>::Id>)
        ensures
            match self {
                Ref::Id(held) => id == held,
                Ref::Model(model) => exists|own: &Id<M, <M as Model>::Id>|
                    call_ensures(M::id, (&model,), own) && call_ensures(
                        Id::<M, <M as Model>::Id>::clone,
                        (own,),
                        id,
                    ),
            },
    {
        match self {
            Self::Id(id) => id,
            Self::Model(model) => model.id().clone(),
        }
    }
}

} // verus!
