//! What a store of todos must offer, whatever keeps the records.

use super::todo::{Todo, TodoId, TodoView};
use vstd::prelude::*;

verus! {

/// A failure below the storage contract.
#[derive(Debug)]
pub enum RepositoryError {
    /// The medium that keeps the records failed; the text says how.
    Database(String),
    /// For stores that report a missing record as a failure.
    NotFound,
}

/// What a store holds: its records, by identifier.
pub type Records = Map<u128, TodoView>;

/// The records of a store are finitely many, and each is kept under its own
/// identifier.
pub open spec fn is_store(records: Records) -> bool {
    &&& records.dom().finite()
    &&& forall|id: u128| #[trigger] records.contains_key(id) ==> records[id].id == id
}

/// The record kept under `id`, if there is one.
pub open spec fn fetch(records: Records, id: u128) -> Option<TodoView> {
    if records.contains_key(id) {
        Some(records[id])
    } else {
        None
    }
}

/// `todos` lists the records of a store: every record once, in some order.
pub open spec fn is_listing(todos: Seq<TodoView>, records: Records) -> bool {
    &&& forall|i: int|
        0 <= i < todos.len() ==> records.contains_key(#[trigger] todos[i].id) && records[todos[i].id]
            == todos[i]
    &&& forall|i: int, j: int|
        0 <= i < j < todos.len() ==> #[trigger] todos[i].id != #[trigger] todos[j].id
    &&& forall|id: u128| #[trigger]
        records.contains_key(id) ==> exists|i: int| 0 <= i < todos.len() && #[trigger] todos[i].id == id
}

/// The todos of a vector as mathematical values.
pub open spec fn todo_views(todos: Seq<Todo>) -> Seq<TodoView> {
    todos.map_values(|todo: Todo| todo@)
}

/// The todo of an optional record as a mathematical value.
pub open spec fn found_view(found: Option<Todo>) -> Option<TodoView> {
    match found {
        Some(todo) => Some(todo@),
        None => None,
    }
}

/// A store of todos, keyed by identifier.
///
/// Every operation may fail with a [`RepositoryError`], unless the
/// implementation declares that it never does. A missing record is no
/// failure: `find_by_id` answers `None`, and `delete` does nothing.
pub trait TodoRepository {
    /// The records that the store holds, by identifier.
    spec fn records(&self) -> Records;

    /// Stores of this type answer every call with `Ok`.
    spec fn never_fails() -> bool;

    /// What a store holds is finite and keyed by identifier, at any time.
    proof fn records_form_a_store(&self)
        ensures
            is_store(self.records()),
    ;

    /// A copy of every record, in no particular order.
    fn find_all(&self) -> (result: Result<Vec<Todo>, RepositoryError>)
        ensures
            Self::never_fails() ==> result is Ok,
            result matches Ok(todos) ==> is_listing(todo_views(todos@), self.records()),
    ;

    /// A copy of the record kept under `id`, or `None` where there is none.
    fn find_by_id(&self, id: &TodoId) -> (result: Result<Option<Todo>, RepositoryError>)
        ensures
            Self::never_fails() ==> result is Ok,
            result matches Ok(found) ==> found_view(found) == fetch(self.records(), id.0),
    ;

    /// Keeps `todo` under its identifier, in place of the record that was
    /// there if there was one, and hands back what was stored.
    fn save(&mut self, todo: Todo) -> (result: Result<Todo, RepositoryError>)
        ensures
            Self::never_fails() ==> result is Ok,
            result matches Ok(stored) ==> stored@ == todo@ && final(self).records() == old(
                self,
            ).records().insert(todo.id.0, todo@),
    ;

    /// Removes the record kept under `id`, if there is one.
    fn delete(&mut self, id: &TodoId) -> (result: Result<(), RepositoryError>)
        ensures
            Self::never_fails() ==> result is Ok,
            result is Ok ==> final(self).records() == old(self).records().remove(id.0),
    ;
}

} // verus!
