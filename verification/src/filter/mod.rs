//! The filter tree, its mathematical model and the builder protocol.
pub mod assoc;
pub mod builder;
pub mod model;
pub mod op;
pub mod tree;
pub mod value;

pub use builder::{
    ChildFilter, Filterable, ModelFieldFilter, ModelFieldVecFilter, ModelFilter,
};
pub use op::{FilterCmpOp, FilterLogicOp};
pub use tree::{Filter, FilterCondition};
pub use value::FilterValue;
