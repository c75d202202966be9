//! The service: the one entry point for callers. It checks titles, turns a
//! missing record into a failure, and leaves the keeping to a repository.
//!
//! What each operation may answer, and what it does to the records, is
//! written down once as a relation between the records before, the
//! arguments, the answer and the records after. The operation promises that
//! relation, and the laws at the end of this file are proved from the
//! relations alone, so they hold of every repository.

use crate::domain::repository::{fetch, is_listing, is_store, todo_views, Records};
use crate::domain::todo::text_view;
use crate::domain::{RepositoryError, Todo, TodoId, TodoRepository, TodoStatus, TodoView};
use vstd::prelude::*;
use vstd::std_specs::convert::FromSpecImpl;

verus! {

/// Why the service refused or failed.
#[derive(Debug)]
pub enum ServiceError {
    /// The repository failed; what it reported is inside.
    Repository(RepositoryError),
    /// No record has the identifier that was given.
    NotFound,
    /// The request was refused; the text says why.
    InvalidInput(String),
}

impl From<RepositoryError> for ServiceError {
    fn from(error: RepositoryError) -> (wrapped: ServiceError) {
        ServiceError::Repository(error)
    }
}

impl FromSpecImpl<RepositoryError> for ServiceError {
    open spec fn obeys_from_spec() -> bool {
        true
    }

    open spec fn from_spec(error: RepositoryError) -> ServiceError {
        ServiceError::Repository(error)
    }
}

/// `text` without its leading and trailing whitespace, as `str::trim` gives
/// it.
pub uninterp spec fn trimmed(text: Seq<char>) -> Seq<char>;

/// Nothing is left of `title` once the whitespace around it is removed.
pub open spec fn title_is_blank(title: Seq<char>) -> bool {
    trimmed(title).len() == 0
}

/// The reason given for refusing a blank title.
pub open spec fn blank_title_reason() -> Seq<char> {
    "title cannot be empty"@
}

/// The answer is a storage failure.
pub open spec fn is_storage_failure<T>(result: Result<T, ServiceError>) -> bool {
    result matches Err(ServiceError::Repository(_))
}

/// `result` is an answer to a request for all todos that `records` allows:
/// a listing of the records, or a storage failure from a repository that
/// may fail.
pub open spec fn is_listing_outcome(
    records: Records,
    result: Result<Vec<Todo>, ServiceError>,
    never_fails: bool,
) -> bool {
    match result {
        Ok(todos) => is_listing(todo_views(todos@), records),
        Err(ServiceError::Repository(_)) => !never_fails,
        Err(_) => false,
    }
}

/// `result` is an answer to a request for the todo `id` that `records`
/// allows: the record kept under `id`, `NotFound` where there is none, or a
/// storage failure from a repository that may fail.
pub open spec fn is_lookup_outcome(
    records: Records,
    id: u128,
    result: Result<Todo, ServiceError>,
    never_fails: bool,
) -> bool {
    match result {
        Ok(todo) => fetch(records, id) == Some(todo@),
        Err(ServiceError::NotFound) => fetch(records, id) is None,
        Err(ServiceError::Repository(_)) => !never_fails,
        Err(ServiceError::InvalidInput(_)) => false,
    }
}

/// `result` and `after` are what creating a todo with `title` and
/// `description` may give on `before`.
///
/// A title that is empty or blank is refused and the records stay as they
/// are. Any other title gives a pending todo with an identifier that is
/// marked as random, created and last changed at one instant, and kept under
/// its identifier; or a storage failure from a repository that may fail.
pub open spec fn is_creation_outcome(
    before: Records,
    title: Seq<char>,
    description: Option<Seq<char>>,
    result: Result<Todo, ServiceError>,
    after: Records,
    never_fails: bool,
) -> bool {
    match result {
        Ok(todo) => {
            &&& title.len() != 0
            &&& !title_is_blank(title)
            &&& todo.id.is_marked_random()
            &&& todo@ == TodoView::created(todo.id.0, title, description, todo.created_at)
            &&& after == before.insert(todo.id.0, todo@)
        },
        Err(ServiceError::InvalidInput(reason)) => {
            &&& title_is_blank(title)
            &&& reason@ == blank_title_reason()
            &&& after == before
        },
        Err(ServiceError::Repository(_)) => {
            &&& title.len() != 0
            &&& !title_is_blank(title)
            &&& !never_fails
        },
        Err(ServiceError::NotFound) => false,
    }
}

/// `result` and `after` are what setting the status of the todo `id` to
/// `status` may give on `before`.
///
/// Where `before` keeps a record under `id`, the answer is that record with
/// the new status and a new instant of its last change, under the same
/// identifier, and it is kept in place of the old one; or a storage failure
/// from a repository that may fail. Where it keeps none, the answer is `NotFound` and the records stay
/// as they are.
pub open spec fn is_status_update_outcome(
    before: Records,
    id: u128,
    status: TodoStatus,
    result: Result<Todo, ServiceError>,
    after: Records,
    never_fails: bool,
) -> bool {
    match result {
        Ok(todo) => {
            &&& fetch(before, id) matches Some(prior)
            &&& todo.id.0 == id
            &&& todo@ == prior.with_status(status, todo.updated_at)
            &&& after == before.insert(id, todo@)
        },
        Err(ServiceError::NotFound) => fetch(before, id) is None && after == before,
        Err(ServiceError::Repository(_)) => !never_fails,
        Err(ServiceError::InvalidInput(_)) => false,
    }
}

/// `result` and `after` are what replacing title and description of the
/// todo `id` may give on `before`.
///
/// A title that is empty or blank is refused, whether or not there is such
/// a todo, and the records stay as they are. Otherwise, where `before`
/// keeps a record under `id`, the answer is that record with the new texts
/// and a new instant of its last change, and it is kept in place of the old
/// one; or a storage failure from a repository that may fail. Where it
/// keeps none, the answer is `NotFound` and the records stay as they are.
pub open spec fn is_content_update_outcome(
    before: Records,
    id: u128,
    title: Seq<char>,
    description: Option<Seq<char>>,
    result: Result<Todo, ServiceError>,
    after: Records,
    never_fails: bool,
) -> bool {
    match result {
        Ok(todo) => {
            &&& title.len() != 0
            &&& !title_is_blank(title)
            &&& fetch(before, id) matches Some(prior)
            &&& todo.id.0 == id
            &&& todo@ == prior.with_content(title, description, todo.updated_at)
            &&& after == before.insert(id, todo@)
        },
        Err(ServiceError::InvalidInput(reason)) => {
            &&& title_is_blank(title)
            &&& reason@ == blank_title_reason()
            &&& after == before
        },
        Err(ServiceError::NotFound) => {
            &&& title.len() != 0
            &&& !title_is_blank(title)
            &&& fetch(before, id) is None
            &&& after == before
        },
        Err(ServiceError::Repository(_)) => {
            &&& title.len() != 0
            &&& !title_is_blank(title)
            &&& !never_fails
        },
    }
}

/// `result` and `after` are what deleting the todo `id` may give on
/// `before`.
///
/// Where `before` keeps a record under `id`, it is removed; or the answer is
/// a storage failure from a repository that may fail. Where it keeps none,
/// the answer is `NotFound` and the records stay as they are.
pub open spec fn is_deletion_outcome(
    before: Records,
    id: u128,
    result: Result<(), ServiceError>,
    after: Records,
    never_fails: bool,
) -> bool {
    match result {
        Ok(_) => before.contains_key(id) && after == before.remove(id),
        Err(ServiceError::NotFound) => !before.contains_key(id) && after == before,
        Err(ServiceError::Repository(_)) => !never_fails,
        Err(ServiceError::InvalidInput(_)) => false,
    }
}

/// What a storage outcome becomes for the caller: a failure is wrapped, a
/// success is handed on.
pub fn or_storage_failure<T>(outcome: Result<T, RepositoryError>) -> (result: Result<
    T,
    ServiceError,
>)
    ensures
        match outcome {
            Ok(value) => result == Ok::<T, ServiceError>(value),
            Err(error) => result == Err::<T, ServiceError>(ServiceError::Repository(error)),
        },
{
    match outcome {
        Ok(value) => Ok(value),
        Err(error) => Err(ServiceError::from(error)),
    }
}

/// What the outcome of a search by identifier becomes for the caller: a
/// missing record is `NotFound`, a storage failure is wrapped.
pub fn or_not_found(outcome: Result<Option<Todo>, RepositoryError>) -> (result: Result<
    Todo,
    ServiceError,
>)
    ensures
        match outcome {
            Ok(Some(todo)) => result == Ok::<Todo, ServiceError>(todo),
            Ok(None) => result == Err::<Todo, ServiceError>(ServiceError::NotFound),
            Err(error) => result == Err::<Todo, ServiceError>(ServiceError::Repository(error)),
        },
{
    match outcome {
        Ok(Some(todo)) => Ok(todo),
        Ok(None) => Err(ServiceError::NotFound),
        Err(error) => Err(ServiceError::from(error)),
    }
}

/// Refuses a title of which `trimmed_title` is what is left without the
/// whitespace around it, if that is nothing.
pub fn check_trimmed_title(trimmed_title: &str) -> (result: Result<(), ServiceError>)
    ensures
        trimmed_title@.len() != 0 ==> result is Ok,
        trimmed_title@.len() == 0 ==> (result matches Err(ServiceError::InvalidInput(reason))
            && reason@ == blank_title_reason()),
{
    if trimmed_title.is_empty() {
        Err(ServiceError::InvalidInput("title cannot be empty".to_string()))
    } else {
        Ok(())
    }
}

/// Refuses a title that is empty or blank.
pub fn check_title(title: &str) -> (result: Result<(), ServiceError>)
    ensures
        !title_is_blank(title@) ==> result is Ok,
        title_is_blank(title@) ==> (result matches Err(ServiceError::InvalidInput(reason))
            && reason@ == blank_title_reason()),
        title@.len() == 0 ==> result is Err,
{
    check_trimmed_title(trim(title))
}

/// The service over a repository of type `R`.
pub struct TodoService<R: TodoRepository> {
    repository: R,
}

impl<R: TodoRepository> TodoService<R> {
    /// The records that the repository holds, by identifier.
    pub closed spec fn records(&self) -> Records {
        self.repository.records()
    }

    /// What the service works on is finite and keyed by identifier, at any
    /// time.
    pub proof fn records_form_a_store(&self)
        ensures
            is_store(self.records()),
    {
        self.repository.records_form_a_store();
    }

    /// A service over `repository`.
    pub fn new(repository: R) -> (service: TodoService<R>)
        ensures
            service.records() == repository.records(),
    {
        TodoService { repository }
    }

    /// Every todo, in no particular order.
    pub fn get_all_todos(&self) -> (result: Result<Vec<Todo>, ServiceError>)
        ensures
            is_listing_outcome(self.records(), result, R::never_fails()),
    {
        or_storage_failure(self.repository.find_all())
    }

    /// The todo `id`; `NotFound` where there is none.
    pub fn get_todo_by_id(&self, id: &TodoId) -> (result: Result<Todo, ServiceError>)
        ensures
            is_lookup_outcome(self.records(), id.0, result, R::never_fails()),
    {
        or_not_found(self.repository.find_by_id(id))
    }

    /// Creates a pending todo under a fresh identifier and keeps it. A title
    /// that is empty or blank is refused, and nothing is kept.
    pub fn create_todo(&mut self, title: String, description: Option<String>) -> (result: Result<
        Todo,
        ServiceError,
    >)
        ensures
            is_creation_outcome(
                old(self).records(),
                title@,
                text_view(description),
                result,
                final(self).records(),
                R::never_fails(),
            ),
            title@.len() == 0 || title_is_blank(title@) ==> {
                &&& (result matches Err(ServiceError::InvalidInput(_)))
                &&& final(self).records() == old(self).records()
            },
    {
        match check_title(title.as_str()) {
            Err(refusal) => { return Err(refusal); },
            Ok(()) => {},
        }
        let todo = Todo::new(title, description);
        or_storage_failure(self.repository.save(todo))
    }

    /// Sets the status of the todo `id` and keeps the change. Any status may
    /// follow any other.
    pub fn update_todo_status(&mut self, id: &TodoId, status: TodoStatus) -> (result: Result<
        Todo,
        ServiceError,
    >)
        ensures
            is_status_update_outcome(
                old(self).records(),
                id.0,
                status,
                result,
                final(self).records(),
                R::never_fails(),
            ),
    {
        proof {
            self.repository.records_form_a_store();
        }
        let mut todo = match self.get_todo_by_id(id) {
            Ok(todo) => todo,
            Err(failure) => { return Err(failure); },
        };
        todo.update_status(status);
        or_storage_failure(self.repository.save(todo))
    }

    /// Replaces title and description of the todo `id` and keeps the change.
    /// A title that is empty or blank is refused before the todo is looked
    /// for.
    pub fn update_todo_content(
        &mut self,
        id: &TodoId,
        title: String,
        description: Option<String>,
    ) -> (result: Result<Todo, ServiceError>)
        ensures
            is_content_update_outcome(
                old(self).records(),
                id.0,
                title@,
                text_view(description),
                result,
                final(self).records(),
                R::never_fails(),
            ),
            title@.len() == 0 || title_is_blank(title@) ==> {
                &&& (result matches Err(ServiceError::InvalidInput(_)))
                &&& final(self).records() == old(self).records()
            },
    {
        proof {
            self.repository.records_form_a_store();
        }
        match check_title(title.as_str()) {
            Err(refusal) => { return Err(refusal); },
            Ok(()) => {},
        }
        let mut todo = match self.get_todo_by_id(id) {
            Ok(todo) => todo,
            Err(failure) => { return Err(failure); },
        };
        todo.update_content(title, description);
        or_storage_failure(self.repository.save(todo))
    }

    /// Removes the todo `id`; `NotFound` where there is none, though the
    /// repository would remove nothing and say nothing.
    pub fn delete_todo(&mut self, id: &TodoId) -> (result: Result<(), ServiceError>)
        ensures
            is_deletion_outcome(
                old(self).records(),
                id.0,
                result,
                final(self).records(),
                R::never_fails(),
            ),
            !old(self).records().contains_key(id.0) ==> {
                &&& result is Err
                &&& (R::never_fails() ==> (result matches Err(ServiceError::NotFound)))
                &&& final(self).records() == old(self).records()
            },
    {
        match self.get_todo_by_id(id) {
            Ok(_) => {},
            Err(failure) => { return Err(failure); },
        }
        or_storage_failure(self.repository.delete(id))
    }
}

/// The store after `todos` were kept in `records`, one after the other.
pub open spec fn kept_in(records: Records, todos: Seq<TodoView>) -> Records
    decreases todos.len(),
{
    if todos.len() == 0 {
        records
    } else {
        kept_in(records, todos.drop_last()).insert(todos.last().id, todos.last())
    }
}

/// No two of `todos` have the same identifier.
pub open spec fn distinct_by_id(todos: Seq<TodoView>) -> bool {
    forall|i: int, j: int|
        0 <= i < j < todos.len() ==> #[trigger] todos[i].id != #[trigger] todos[j].id
}

/// Creating a todo with an empty or blank title fails with `InvalidInput`,
/// and the records stay as they are.
pub proof fn blank_title_is_refused(
    before: Records,
    title: Seq<char>,
    description: Option<Seq<char>>,
    result: Result<Todo, ServiceError>,
    after: Records,
    never_fails: bool,
)
    requires
        is_creation_outcome(before, title, description, result, after, never_fails),
        title.len() == 0 || title_is_blank(title),
    ensures
        result matches Err(ServiceError::InvalidInput(_)),
        after == before,
{
}

/// A search for a todo that was just created finds it as it was created,
/// last changed when it was created.
pub proof fn created_todo_is_found(
    before: Records,
    title: Seq<char>,
    description: Option<Seq<char>>,
    created: Todo,
    after: Records,
    found: Result<Todo, ServiceError>,
    never_fails: bool,
)
    requires
        is_creation_outcome(
            before,
            title,
            description,
            Ok::<Todo, ServiceError>(created),
            after,
            never_fails,
        ),
        is_lookup_outcome(after, created.id.0, found, never_fails),
        !is_storage_failure(found),
    ensures
        found matches Ok(todo) && todo@ == created@ && todo.updated_at == todo.created_at,
{
}

/// A search for a todo whose status was just set finds it with that status
/// and as the update answered it; and where the clock had moved on since the
/// todo was last changed, it finds it changed later than it was.
pub proof fn status_update_is_found(
    before: Records,
    id: u128,
    status: TodoStatus,
    updated: Todo,
    after: Records,
    found: Result<Todo, ServiceError>,
    never_fails: bool,
)
    requires
        is_store(before),
        is_status_update_outcome(
            before,
            id,
            status,
            Ok::<Todo, ServiceError>(updated),
            after,
            never_fails,
        ),
        before[id].updated_at.is_before(updated.updated_at),
        is_lookup_outcome(after, id, found, never_fails),
        !is_storage_failure(found),
    ensures
        found matches Ok(todo) && todo@ == updated@ && todo.id.0 == id && todo.status == status
            && before[id].updated_at.is_before(todo.updated_at),
{
}

/// A search for a todo that was just deleted fails with `NotFound`.
pub proof fn deleted_todo_is_not_found(
    before: Records,
    id: u128,
    after: Records,
    found: Result<Todo, ServiceError>,
    never_fails: bool,
)
    requires
        is_deletion_outcome(before, id, Ok::<(), ServiceError>(()), after, never_fails),
        is_lookup_outcome(after, id, found, never_fails),
        !is_storage_failure(found),
    ensures
        found matches Err(ServiceError::NotFound),
{
}

/// Deleting a todo that was never created fails with `NotFound` and leaves
/// the records as they are, which is also how removing it from the records
/// would leave them.
pub proof fn missing_todo_is_not_deleted(
    before: Records,
    id: u128,
    result: Result<(), ServiceError>,
    after: Records,
    never_fails: bool,
)
    requires
        !before.contains_key(id),
        is_deletion_outcome(before, id, result, after, never_fails),
        !is_storage_failure(result),
    ensures
        result matches Err(ServiceError::NotFound),
        after == before,
        before.remove(id) == before,
{
    assert(before.remove(id) =~= before);
}

/// A listing has one entry for each record of the store, and no two of its
/// entries have the same identifier.
pub proof fn listing_has_every_record_once(listing: Seq<TodoView>, records: Records)
    requires
        is_store(records),
        is_listing(listing, records),
    ensures
        listing.len() == records.len(),
        distinct_by_id(listing),
{
    let ids = listing.map_values(|todo: TodoView| todo.id);
    assert(ids.no_duplicates());
    assert(ids.to_set() =~= records.dom()) by {
        assert forall|id: u128| records.dom().contains(id) implies ids.to_set().contains(id) by {
            let at = choose|i: int| 0 <= i < listing.len() && #[trigger] listing[i].id == id;
            assert(ids[at] == id);
        }
        assert forall|id: u128| ids.to_set().contains(id) implies records.dom().contains(id) by {
            let at = choose|i: int| 0 <= i < ids.len() && ids[i] == id;
            assert(records.contains_key(listing[at].id));
        }
    }
    ids.unique_seq_to_set();
}

/// Keeping todos whose identifiers are new to the store and differ from each
/// other adds one record for each.
pub proof fn keeping_new_todos_adds_them(records: Records, todos: Seq<TodoView>)
    requires
        is_store(records),
        distinct_by_id(todos),
        forall|i: int| 0 <= i < todos.len() ==> !records.contains_key(#[trigger] todos[i].id),
    ensures
        is_store(kept_in(records, todos)),
        kept_in(records, todos).len() == records.len() + todos.len(),
        forall|id: u128|
            kept_in(records, todos).contains_key(id) <==> records.contains_key(id) || exists|i: int|
                0 <= i < todos.len() && #[trigger] todos[i].id == id,
    decreases todos.len(),
{
    if todos.len() > 0 {
        let earlier = todos.drop_last();
        let last = todos.last();
        keeping_new_todos_adds_them(records, earlier);
        let before = kept_in(records, earlier);
        assert(!before.contains_key(last.id)) by {
            if before.contains_key(last.id) {
                let at = choose|i: int| 0 <= i < earlier.len() && #[trigger] earlier[i].id == last.id;
                assert(todos[at].id == todos[todos.len() - 1].id);
            }
        }
        assert forall|id: u128|
            kept_in(records, todos).contains_key(id) <==> records.contains_key(id) || exists|i: int|
                0 <= i < todos.len() && #[trigger] todos[i].id == id by {
            if kept_in(records, todos).contains_key(id) {
                if id == last.id {
                    assert(todos[todos.len() - 1].id == id);
                } else if !records.contains_key(id) {
                    let at = choose|i: int| 0 <= i < earlier.len() && #[trigger] earlier[i].id == id;
                    assert(todos[at].id == id);
                }
            }
            if exists|i: int| 0 <= i < todos.len() && #[trigger] todos[i].id == id {
                let at = choose|i: int| 0 <= i < todos.len() && #[trigger] todos[i].id == id;
                if at < earlier.len() {
                    assert(earlier[at].id == id);
                }
            }
        }
    }
}

/// After todos with identifiers of their own were created in an empty store
/// and one of them was deleted, a request for all todos answers one todo
/// less than were created, no two with the same identifier.
pub proof fn listing_after_creations_and_a_deletion(
    created: Seq<TodoView>,
    deleted: int,
    after: Records,
    result: Result<Vec<Todo>, ServiceError>,
    never_fails: bool,
)
    requires
        distinct_by_id(created),
        0 <= deleted < created.len(),
        is_deletion_outcome(
            kept_in(Records::empty(), created),
            created[deleted].id,
            Ok::<(), ServiceError>(()),
            after,
            never_fails,
        ),
        is_listing_outcome(after, result, never_fails),
        !is_storage_failure(result),
    ensures
        result matches Ok(todos) && todos@.len() == created.len() - 1 && distinct_by_id(
            todo_views(todos@),
        ),
{
    keeping_new_todos_adds_them(Records::empty(), created);
    listing_has_every_record_once(todo_views(result->Ok_0@), after);
}

/// `str::trim`: the text without its leading and trailing whitespace, where
/// whitespace is what Unicode's `White_Space` property says.
///
/// The result is named, not spelled out. It is a part of the text, so it is
/// no longer than the text.
#[verifier::external_body]
fn trim(text: &str) -> (rest: &str)
    ensures
        rest@ == trimmed(text@),
        rest@.len() <= text@.len(),
{
    text.trim()
}

} // verus!
