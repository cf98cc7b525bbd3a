//! The decisions of the document-database adapter. The adapter itself talks
//! to the database; what it asks for and what it makes of the answer is
//! decided here.
use vstd::prelude::*;
use crate::error::MustyError;
use crate::id::{Id, IdGuard};
use crate::model::Model;

verus! {

/// What the adapter asks the database for.
#[derive(Debug, Clone, Copy, PartialEq, Eq, Structural)]
pub enum Request {
    /// The document whose `_id` is the record's identifier.
    FindById,
    /// The first document that a given filter matches.
    FindOne,
    /// To replace the document whose `_id` is the record's identifier, or to
    /// insert the record where there is none, and to hand back what is stored.
    ReplaceById,
    /// To insert the record, which has no identifier yet, and to hand back
    /// what is stored.
    ReplaceAny,
    /// To delete the document whose `_id` is the record's identifier.
    DeleteById,
}

/// How fetching a record by its identifier begins: without a collection for
/// the record type there is nothing to ask and no record.
pub fn begin_get(has_collection: bool) -> (r: Option<Request>)
    ensures
        r == (if has_collection {
            Some(Request::FindById)
        } else {
            None
        }),
{
    if has_collection {
        Some(Request::FindById)
    } else {
        None
    }
}

/// How saving a record begins: a record with an identifier replaces the
/// document of that identifier, one without is inserted. Without a
/// collection for the record type the record cannot be saved.
pub fn begin_save<M: Model, I: IdGuard>(has_collection: bool, id: &Id<M, I>) -> (r: Result<
    Request,
    MustyError,
>)
    ensures
        has_collection && id.inner is Some ==> r == Ok::<Request, MustyError>(Request::ReplaceById),
        has_collection && id.inner is None ==> r == Ok::<Request, MustyError>(Request::ReplaceAny),
        !has_collection ==> (r matches Err(e) && e is Other),
{
    if has_collection {
        if id.is_none() {
            Ok(Request::ReplaceAny)
        } else {
            Ok(Request::ReplaceById)
        }
    } else {
        Err(MustyError::other("Could not save model: no collection found"))
    }
}

/// How saving a record ends: the record takes over the identifier of the
/// document that the server stored and handed back. A server that hands
/// nothing back has failed.
pub fn finish_save<M: Model>(model: &mut M, updated: Option<M>) -> (r: Result<bool, MustyError>)
    ensures
        match updated {
            Some(stored) => r == Ok::<bool, MustyError>(false) && exists|
                own: &Id<M, <M as Model>::Id>,
                copy: Id<M, <M as Model>::Id>,
                record: &mut M,
            |
                call_ensures(M::id, (&stored,), own) && call_ensures(
                    Id::<M, <M as Model>::Id>::clone,
                    (own,),
                    copy,
                ) && *record == *old(model) && *final(record) == *final(model) && call_ensures(
                    M::set_id,
                    (record, copy),
                    (),
                ),
            None => r matches Err(e) && e is MongoServerFailedToReturnUpdatedDoc && *final(model)
                == *old(model),
        },
{
    match updated {
        Some(stored) => {
            let updated_id = stored.id().clone();
            model.set_id(updated_id);
            Ok(false)
        },
        None => Err(MustyError::MongoServerFailedToReturnUpdatedDoc),
    }
}

/// How deleting a record begins: only a record with an identifier can be
/// deleted, and only from a collection.
pub fn begin_delete<M: Model, I: IdGuard>(has_collection: bool, id: &Id<M, I>) -> (r: Result<
    Request,
    MustyError,
>)
    ensures
        id.inner is None ==> (r matches Err(e) && e is MongoModelIdRequiredForOperation),
        id.inner is Some && !has_collection ==> (r matches Err(e) && e is Other),
        id.inner is Some && has_collection ==> r == Ok::<Request, MustyError>(Request::DeleteById),
{
    if id.is_none() {
        return Err(MustyError::MongoModelIdRequiredForOperation);
    }
    if has_collection {
        Ok(Request::DeleteById)
    } else {
        Err(MustyError::other("Could not delete model: no collection found"))
    }
}

/// How deleting a record ends: whether the server deleted a document.
pub fn finish_delete(deleted_count: u64) -> (deleted: bool)
    ensures
        deleted == (deleted_count > 0),
{
    deleted_count > 0
}

/// How finding one record begins: only a collection can be searched.
pub fn begin_find_one(has_collection: bool) -> (r: Result<Request, MustyError>)
    ensures
        has_collection ==> r == Ok::<Request, MustyError>(Request::FindOne),
        !has_collection ==> (r matches Err(e) && e is Other),
{
    if has_collection {
        Ok(Request::FindOne)
    } else {
        Err(MustyError::other("Could not delete model: no collection found"))
    }
}

/// What a cursor hands on for what the driver's cursor gave: the record, or
/// the driver's error as an error of the library; the end stays the end.
pub fn next_item<M>(item: Option<Result<M, mongodb::error::Error>>) -> (r: Option<
    Result<M, MustyError>,
>)
    ensures
        r == (match item {
            Some(Ok(model)) => Some(Ok::<M, MustyError>(model)),
            Some(Err(e)) => Some(Err::<M, MustyError>(MustyError::Mongo(e))),
            None => None,
        }),
{
    match item {
        Some(Ok(model)) => Some(Ok(model)),
        Some(Err(e)) => Some(Err(MustyError::from(e))),
        None => None,
    }
}

} // verus!
