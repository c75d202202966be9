//! A small todo manager: the entity model, a storage abstraction with an
//! in-memory implementation, the service that validates and orchestrates,
//! and the request handlers that a transport layer calls.

use crate::application::TodoService;
use crate::domain::TodoRepository;
use vstd::prelude::*;

pub mod application;
pub mod domain;
pub mod infrastructure;
pub mod presentation;

verus! {

/// What the request handlers share: the service.
pub struct AppState<R: TodoRepository> {
    pub todo_service: TodoService<R>,
}

} // verus!
