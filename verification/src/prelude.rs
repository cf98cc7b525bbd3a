//! What a program that uses the library needs by name.
pub use crate::error::MustyError;
pub use crate::filter::builder::{
    ChildFilter, Filterable, ModelFieldFilter, ModelFieldVecFilter, ModelFilter,
};
pub use crate::filter::op::{FilterCmpOp, FilterLogicOp};
pub use crate::filter::tree::{Filter, FilterCondition};
pub use crate::filter::value::FilterValue;
pub use crate::id::{DefaultType as DefaultIdType, GeneratedIdGuard, Id, IdGuard};
pub use crate::model::Model;
pub use crate::object_id::ObjectId;
pub use crate::reference::Ref;
