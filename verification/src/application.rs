//! The operations that callers may invoke.

pub mod service;

pub use service::{ServiceError, TodoService};
