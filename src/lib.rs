//! Typed diagnostics, and a channel that carries one out of an operation
//! whose own return type cannot.
pub mod channel;
pub mod error;
