//! A store that keeps its records in memory.

use crate::domain::repository::{todo_views, Records};
use crate::domain::{RepositoryError, Todo, TodoId, TodoRepository};
use std::collections::HashMap;
use vstd::prelude::*;
use vstd::std_specs::hash::{axiom_spec_hash_map_iter, spec_hash_map_iter};
use vstd::std_specs::iter::IteratorSpec;

verus! {

/// A store in a hash map, for as long as the process lives. It never fails.
pub struct InMemoryTodoRepository {
    todos: HashMap<u128, Todo>,
}

impl InMemoryTodoRepository {
    /// Each record is kept under its own identifier.
    #[verifier::type_invariant]
    spec fn keyed_by_id(self) -> bool {
        forall|id: u128| #[trigger] self.todos@.contains_key(id) ==> self.todos@[id].id.0 == id
    }

    /// An empty store.
    pub fn new() -> (repository: InMemoryTodoRepository)
        ensures
            repository.records() == Records::empty(),
    {
        let repository = InMemoryTodoRepository { todos: HashMap::new() };
        assert(repository.records() =~= Records::empty());
        repository
    }
}

impl TodoRepository for InMemoryTodoRepository {
    closed spec fn records(&self) -> Records {
        records_of(self.todos@)
    }

    proof fn records_form_a_store(&self) {
        assert(records_of(self.todos@).dom().subset_of(self.todos@.dom()));
        vstd::set_lib::lemma_len_subset(records_of(self.todos@).dom(), self.todos@.dom());
    }

    open spec fn never_fails() -> bool {
        true
    }

    fn find_all(&self) -> (result: Result<Vec<Todo>, RepositoryError>) {
        proof {
            use_type_invariant(self);
        }
        let mut todos: Vec<Todo> = Vec::new();
        for entry in it: self.todos.iter()
            invariant
                it.seq() == spec_hash_map_iter(&self.todos).remaining(),
                it.seq().no_duplicates(),
                todos@.len() == it.index(),
                forall|i: int|
                    0 <= i < todos@.len() ==> (#[trigger] todos@[i])@ == (*spec_hash_map_iter(
                        &self.todos,
                    ).remaining()[i].1)@,
        {
            todos.push(entry.1.clone());
        }
        proof {
            let entries = spec_hash_map_iter(&self.todos).remaining();
            let listed = todo_views(todos@);
            let stored = self.todos@;
            axiom_spec_hash_map_iter(&self.todos);
            assert forall|i: int| 0 <= i < listed.len() implies self.records().contains_key(
                #[trigger] listed[i].id,
            ) && self.records()[listed[i].id] == listed[i] by {
                assert(stored.contains_key(*entries[i].0));
            }
            assert forall|i: int, j: int| 0 <= i < j < listed.len() implies #[trigger] listed[i].id
                != #[trigger] listed[j].id by {
                assert(stored.contains_key(*entries[i].0));
                assert(stored.contains_key(*entries[j].0));
                if listed[i].id == listed[j].id {
                    assert(entries[i] == entries[j]);
                }
            }
            assert forall|id: u128| #[trigger] self.records().contains_key(id) implies exists|i: int|
                0 <= i < listed.len() && #[trigger] listed[i].id == id by {
                assert(stored.contains_key(id));
                let at = entries.index_of((&id, &stored[id]));
                assert(entries[at] == (&id, &stored[id]));
                assert(listed[at].id == id);
            }
        }
        Ok(todos)
    }

    fn find_by_id(&self, id: &TodoId) -> (result: Result<Option<Todo>, RepositoryError>) {
        proof {
            use_type_invariant(self);
        }
        match self.todos.get(&id.0) {
            Some(todo) => Ok(Some(todo.clone())),
            None => Ok(None),
        }
    }

    fn save(&mut self, todo: Todo) -> (result: Result<Todo, RepositoryError>) {
        proof {
            use_type_invariant(&*self);
        }
        let stored = todo.clone();
        let mut todos: HashMap<u128, Todo> = HashMap::new();
        std::mem::swap(&mut todos, &mut self.todos);
        todos.insert(todo.id.0, todo);
        self.todos = todos;
        assert(self.records() =~= old(self).records().insert(stored.id.0, stored@));
        Ok(stored)
    }

    fn delete(&mut self, id: &TodoId) -> (result: Result<(), RepositoryError>) {
        proof {
            use_type_invariant(&*self);
        }
        let mut todos: HashMap<u128, Todo> = HashMap::new();
        std::mem::swap(&mut todos, &mut self.todos);
        todos.remove(&id.0);
        self.todos = todos;
        assert(self.records() =~= old(self).records().remove(id.0));
        Ok(())
    }
}

/// The todos of a hash map as records: those that are kept under their own
/// identifier, which the map's invariant says are all of them.
spec fn records_of(todos: Map<u128, Todo>) -> Records {
    Map::new(|id: u128| todos.contains_key(id) && todos[id].id.0 == id, |id: u128| todos[id]@)
}

} // verus!
