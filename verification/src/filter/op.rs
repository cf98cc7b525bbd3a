//! Comparison and logical operators of the filter tree.
use vstd::prelude::*;

verus! {

/// How a field is compared against the value of a leaf condition.
#[derive(Debug, Clone, Copy, PartialEq, Eq, PartialOrd, Ord, Hash, Structural)]
pub enum FilterCmpOp {
    Eq,
    Ne,
    Gt,
    Lt,
    Ge,
    Le,
}

/// The combinator under which a logical group holds.
#[derive(Debug, Clone, Copy, PartialEq, Eq, PartialOrd, Ord, Hash, Structural)]
pub enum FilterLogicOp {
    /// Every condition of the group holds.
    All,
    /// At least one condition of the group holds.
    Any,
}

} // verus!
