//! What deriving a record type decides: which field is the identifier, what
//! type it has, which builder methods and which collection a record gets.
//! The input is what a derive macro reads of a struct, as plain values; the
//! result is a plan of what to generate, or the reason why nothing can be.
pub mod error;
pub mod id;
pub mod input;
pub mod naming;
pub mod plan;
pub mod rewrite;
pub mod serde_attrs;
