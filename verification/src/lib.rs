//! Typed bitflags from plain enums: the validation, evaluation and layout
//! decisions behind the `#[flags]` attribute, and a model of the flag-set
//! type that it generates.

pub mod bits;
pub mod docs;
pub mod error;
pub mod expand;
pub mod expr;
pub mod flagset;
pub mod laws;
