//! The entity model and the storage abstraction.

pub mod repository;
pub mod timestamp;
pub mod todo;

pub use repository::{Records, RepositoryError, TodoRepository};
pub use timestamp::Timestamp;
pub use todo::{Todo, TodoId, TodoStatus, TodoView};
