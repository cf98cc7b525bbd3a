//! Records that a database stores.
use vstd::prelude::*;
use crate::id::{Id, IdGuard};

verus! {

/// A record type: it carries an identifier.
pub trait Model: Sized + Clone {
    /// The type of the value inside the record's identifier.
    type Id: IdGuard;

    /// The identifier of this record.
    fn id(&self) -> &Id<Self, Self::Id>;

    /// Gives this record the identifier `id`.
    fn set_id(&mut self, id: Id<Self, Self::Id>);
}

} // verus!
