//! Helpers for deriving names and notations.
pub mod decimal;
pub mod string;
