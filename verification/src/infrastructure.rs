//! Stores that implement the storage abstraction.

pub mod repository;

pub use repository::InMemoryTodoRepository;
