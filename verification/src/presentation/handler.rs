//! The request handlers: each reads what the transport layer took from a
//! request, calls the service, and answers with a value or a status.

use crate::application::service::title_is_blank;
use crate::application::ServiceError;
use crate::domain::repository::{fetch, is_listing, todo_views};
use crate::domain::todo::text_view;
use crate::domain::{Todo, TodoId, TodoRepository, TodoStatus, TodoView};
use crate::AppState;
use vstd::prelude::*;

verus! {

/// The statuses that the handlers answer with, besides plain success.
#[derive(Debug, Clone, Copy, PartialEq, Eq, Structural)]
pub enum StatusCode {
    /// Done, and nothing to send back.
    NoContent,
    /// The request cannot be served as it is.
    BadRequest,
    /// There is no such todo.
    NotFound,
    /// The service failed.
    InternalServerError,
}

impl StatusCode {
    /// The number of the status in HTTP.
    pub open spec fn number(self) -> u16 {
        match self {
            StatusCode::NoContent => 204,
            StatusCode::BadRequest => 400,
            StatusCode::NotFound => 404,
            StatusCode::InternalServerError => 500,
        }
    }

    /// The number of the status in HTTP.
    pub fn as_u16(&self) -> (number: u16)
        ensures
            number == self.number(),
    {
        match self {
            StatusCode::NoContent => 204,
            StatusCode::BadRequest => 400,
            StatusCode::NotFound => 404,
            StatusCode::InternalServerError => 500,
        }
    }
}

/// What a request to create a todo carries.
#[derive(Debug)]
pub struct CreateTodoRequest {
    pub title: String,
    pub description: Option<String>,
}

/// What a request to replace a todo's content carries.
#[derive(Debug)]
pub struct UpdateTodoRequest {
    pub title: String,
    pub description: Option<String>,
}

/// What a request to set a todo's status carries.
#[derive(Debug)]
pub struct UpdateTodoStatusRequest {
    pub status: TodoStatus,
}

/// The 128 bits of the UUID that `text` spells, as `uuid::Uuid::parse_str`
/// reads it; `None` where it spells none.
pub uninterp spec fn parsed_uuid(text: Seq<char>) -> Option<u128>;

/// The identifier that a parsed path segment stands for; `BadRequest` where
/// it did not parse.
pub fn todo_id_or_bad_request(parsed: Option<u128>) -> (result: Result<TodoId, StatusCode>)
    ensures
        match parsed {
            Some(bits) => result == Ok::<TodoId, StatusCode>(TodoId(bits)),
            None => result == Err::<TodoId, StatusCode>(StatusCode::BadRequest),
        },
{
    match parsed {
        Some(bits) => Ok(TodoId(bits)),
        None => Err(StatusCode::BadRequest),
    }
}

/// Reads an identifier from a path segment; `BadRequest` where the segment
/// spells no UUID.
pub fn parse_todo_id(id: &str) -> (result: Result<TodoId, StatusCode>)
    ensures
        match parsed_uuid(id@) {
            Some(bits) => result == Ok::<TodoId, StatusCode>(TodoId(bits)),
            None => result == Err::<TodoId, StatusCode>(StatusCode::BadRequest),
        },
{
    todo_id_or_bad_request(parse_uuid(id))
}

/// The status that tells a caller of a failure of the service: a refused
/// input is the caller's fault, a missing todo is not found, and a storage
/// failure is the server's.
pub open spec fn status_of(error: ServiceError) -> StatusCode {
    match error {
        ServiceError::InvalidInput(_) => StatusCode::BadRequest,
        ServiceError::NotFound => StatusCode::NotFound,
        ServiceError::Repository(_) => StatusCode::InternalServerError,
    }
}

/// The status that tells a caller of `error`.
pub fn failure_status(error: &ServiceError) -> (status: StatusCode)
    ensures
        status == status_of(*error),
{
    match error {
        ServiceError::InvalidInput(_) => StatusCode::BadRequest,
        ServiceError::NotFound => StatusCode::NotFound,
        ServiceError::Repository(_) => StatusCode::InternalServerError,
    }
}

/// What an answer of the service becomes for the transport layer: a value
/// is handed on, a failure becomes its status.
pub fn respond<T>(outcome: Result<T, ServiceError>) -> (response: Result<T, StatusCode>)
    ensures
        match outcome {
            Ok(value) => response == Ok::<T, StatusCode>(value),
            Err(error) => response == Err::<T, StatusCode>(status_of(error)),
        },
{
    match outcome {
        Ok(value) => Ok(value),
        Err(error) => Err(failure_status(&error)),
    }
}

/// All todos, in no particular order.
pub fn get_todos<R: TodoRepository>(state: &AppState<R>) -> (response: Result<
    Vec<Todo>,
    StatusCode,
>)
    ensures
        match response {
            Ok(todos) => is_listing(todo_views(todos@), state.todo_service.records()),
            Err(StatusCode::InternalServerError) => !R::never_fails(),
            Err(_) => false,
        },
{
    respond(state.todo_service.get_all_todos())
}

/// The todo that the path segment `id` names.
pub fn get_todo<R: TodoRepository>(state: &AppState<R>, id: String) -> (response: Result<
    Todo,
    StatusCode,
>)
    ensures
        match parsed_uuid(id@) {
            None => response == Err::<Todo, StatusCode>(StatusCode::BadRequest),
            Some(bits) => match response {
                Ok(todo) => fetch(state.todo_service.records(), bits) == Some(todo@),
                Err(StatusCode::NotFound) => fetch(state.todo_service.records(), bits) is None,
                Err(StatusCode::InternalServerError) => !R::never_fails(),
                Err(_) => false,
            },
        },
{
    let todo_id = match parse_todo_id(id.as_str()) {
        Ok(todo_id) => todo_id,
        Err(status) => { return Err(status); },
    };
    respond(state.todo_service.get_todo_by_id(&todo_id))
}

/// Creates the todo that `req` describes.
pub fn create_todo<R: TodoRepository>(state: &mut AppState<R>, req: CreateTodoRequest) -> (response:
    Result<Todo, StatusCode>)
    ensures
        match response {
            Ok(todo) => {
                &&& !title_is_blank(req.title@)
                &&& todo.id.is_marked_random()
                &&& todo@ == TodoView::created(
                    todo.id.0,
                    req.title@,
                    text_view(req.description),
                    todo.created_at,
                )
                &&& final(state).todo_service.records() == old(state).todo_service.records().insert(
                    todo.id.0,
                    todo@,
                )
            },
            Err(StatusCode::BadRequest) => {
                &&& title_is_blank(req.title@)
                &&& final(state).todo_service.records() == old(state).todo_service.records()
            },
            Err(StatusCode::InternalServerError) => !title_is_blank(req.title@)
                && !R::never_fails(),
            Err(_) => false,
        },
        req.title@.len() == 0 ==> response == Err::<Todo, StatusCode>(StatusCode::BadRequest),
{
    respond(state.todo_service.create_todo(req.title, req.description))
}

/// Replaces the content of the todo that the path segment `id` names by
/// what `req` carries.
pub fn update_todo<R: TodoRepository>(
    state: &mut AppState<R>,
    id: String,
    req: UpdateTodoRequest,
) -> (response: Result<Todo, StatusCode>)
    ensures
        match parsed_uuid(id@) {
            None => {
                &&& response == Err::<Todo, StatusCode>(StatusCode::BadRequest)
                &&& final(state).todo_service.records() == old(state).todo_service.records()
            },
            Some(bits) => match response {
                Ok(todo) => {
                    &&& !title_is_blank(req.title@)
                    &&& fetch(old(state).todo_service.records(), bits) matches Some(before)
                    &&& todo@ == before.with_content(
                        req.title@,
                        text_view(req.description),
                        todo.updated_at,
                    )
                    &&& final(state).todo_service.records() == old(
                        state,
                    ).todo_service.records().insert(bits, todo@)
                },
                Err(StatusCode::BadRequest) => {
                    &&& title_is_blank(req.title@)
                    &&& final(state).todo_service.records() == old(state).todo_service.records()
                },
                Err(StatusCode::NotFound) => {
                    &&& !title_is_blank(req.title@)
                    &&& fetch(old(state).todo_service.records(), bits) is None
                    &&& final(state).todo_service.records() == old(state).todo_service.records()
                },
                Err(StatusCode::InternalServerError) => !title_is_blank(req.title@)
                    && !R::never_fails(),
                Err(StatusCode::NoContent) => false,
            },
        },
{
    let todo_id = match parse_todo_id(id.as_str()) {
        Ok(todo_id) => todo_id,
        Err(status) => { return Err(status); },
    };
    respond(state.todo_service.update_todo_content(&todo_id, req.title, req.description))
}

/// Sets the status of the todo that the path segment `id` names to the one
/// that `req` carries.
pub fn update_todo_status<R: TodoRepository>(
    state: &mut AppState<R>,
    id: String,
    req: UpdateTodoStatusRequest,
) -> (response: Result<Todo, StatusCode>)
    ensures
        match parsed_uuid(id@) {
            None => {
                &&& response == Err::<Todo, StatusCode>(StatusCode::BadRequest)
                &&& final(state).todo_service.records() == old(state).todo_service.records()
            },
            Some(bits) => match response {
                Ok(todo) => {
                    &&& fetch(old(state).todo_service.records(), bits) matches Some(before)
                    &&& todo@ == before.with_status(req.status, todo.updated_at)
                    &&& final(state).todo_service.records() == old(
                        state,
                    ).todo_service.records().insert(bits, todo@)
                },
                Err(StatusCode::NotFound) => {
                    &&& fetch(old(state).todo_service.records(), bits) is None
                    &&& final(state).todo_service.records() == old(state).todo_service.records()
                },
                Err(StatusCode::InternalServerError) => !R::never_fails(),
                Err(_) => false,
            },
        },
{
    let todo_id = match parse_todo_id(id.as_str()) {
        Ok(todo_id) => todo_id,
        Err(status) => { return Err(status); },
    };
    respond(state.todo_service.update_todo_status(&todo_id, req.status))
}

/// Deletes the todo that the path segment `id` names.
pub fn delete_todo<R: TodoRepository>(state: &mut AppState<R>, id: String) -> (response: Result<
    StatusCode,
    StatusCode,
>)
    ensures
        match parsed_uuid(id@) {
            None => {
                &&& response == Err::<StatusCode, StatusCode>(StatusCode::BadRequest)
                &&& final(state).todo_service.records() == old(state).todo_service.records()
            },
            Some(bits) => match response {
                Ok(status) => {
                    &&& status == StatusCode::NoContent
                    &&& old(state).todo_service.records().contains_key(bits)
                    &&& final(state).todo_service.records() == old(
                        state,
                    ).todo_service.records().remove(bits)
                },
                Err(StatusCode::NotFound) => {
                    &&& !old(state).todo_service.records().contains_key(bits)
                    &&& final(state).todo_service.records() == old(state).todo_service.records()
                },
                Err(StatusCode::InternalServerError) => !R::never_fails(),
                Err(_) => false,
            },
        },
{
    let todo_id = match parse_todo_id(id.as_str()) {
        Ok(todo_id) => todo_id,
        Err(status) => { return Err(status); },
    };
    match respond(state.todo_service.delete_todo(&todo_id)) {
        Ok(()) => Ok(StatusCode::NoContent),
        Err(status) => Err(status),
    }
}

/// `uuid::Uuid::parse_str`, with the UUID as the 128-bit number that
/// `Uuid::as_u128` gives and the error dropped.
///
/// The parser reads the simple, hyphenated, URN and braced forms. What it
/// reads depends on the text alone; the result is named, not spelled out.
#[verifier::external_body]
fn parse_uuid(text: &str) -> (parsed: Option<u128>)
    ensures
        parsed == parsed_uuid(text@),
{
    match uuid::Uuid::parse_str(text) {
        Ok(uuid) => Some(uuid.as_u128()),
        Err(_) => None,
    }
}

} // verus!
