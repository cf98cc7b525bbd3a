//! Typed construction of backend-neutral query filters for records of a
//! document database.
//!
//! A [`filter::Filter`] is a tree of leaf conditions, logical groups and
//! child scopes. Each record type has a builder ([`filter::ModelFilter`])
//! whose per-field cursors file conditions with the tree; a backend later
//! lowers the finished tree into its native query. Every operation on the
//! tree is stated over a mathematical model of the tree
//! ([`filter::model::FilterModel`]) and proved against it.
//!
//! Around the filters stand the identifiers of records ([`id`],
//! [`object_id`], [`reference`]), the decisions of the database adapter
//! ([`backend`]), the errors ([`error`]) and what deriving a record type
//! decides ([`derive`]).
pub mod backend;
pub mod derive;
pub mod error;
pub mod filter;
pub mod id;
pub mod model;
pub mod object_id;
pub mod prelude;
pub mod reference;
pub mod util;

pub use error::MustyError;
pub use model::Model;
