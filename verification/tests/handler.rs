use todo_service::application::{ServiceError, TodoService};
use todo_service::domain::{RepositoryError, Timestamp, Todo, TodoId, TodoStatus};
use todo_service::infrastructure::InMemoryTodoRepository;
use todo_service::presentation::handler::{
    create_todo, delete_todo, failure_status, get_todo, get_todos, parse_todo_id, respond,
    todo_id_or_bad_request, update_todo, update_todo_status, CreateTodoRequest, StatusCode,
    UpdateTodoRequest, UpdateTodoStatusRequest,
};
use todo_service::AppState;

fn state() -> AppState<InMemoryTodoRepository> {
    AppState { todo_service: TodoService::new(InMemoryTodoRepository::new()) }
}

fn hyphenated(id: TodoId) -> String {
    uuid::Uuid::from_u128(id.0).hyphenated().to_string()
}

fn sample() -> Todo {
    Todo::created(TodoId(1), "a".to_string(), None, Timestamp { secs: 0, nanos: 0 })
}

fn database_failure() -> ServiceError {
    ServiceError::Repository(RepositoryError::Database("down".to_string()))
}

fn refusal() -> ServiceError {
    ServiceError::InvalidInput("title cannot be empty".to_string())
}

#[test]
fn status_numbers() {
    assert_eq!(StatusCode::NoContent.as_u16(), 204);
    assert_eq!(StatusCode::BadRequest.as_u16(), 400);
    assert_eq!(StatusCode::NotFound.as_u16(), 404);
    assert_eq!(StatusCode::InternalServerError.as_u16(), 500);
}

#[test]
fn parse_reads_a_hyphenated_uuid() {
    assert_eq!(
        parse_todo_id("550e8400-e29b-41d4-a716-446655440000"),
        Ok(TodoId(0x550e8400_e29b_41d4_a716_446655440000))
    );
    assert_eq!(
        parse_todo_id("a1a2a3a4-b1b2-c1c2-d1d2-d3d4d5d6d7d8"),
        Ok(TodoId(0xa1a2a3a4b1b2c1c2d1d2d3d4d5d6d7d8))
    );
    assert_eq!(parse_todo_id("00000000-0000-0000-0000-000000000000"), Ok(TodoId(0)));
}

#[test]
fn parse_reads_the_other_forms_of_the_uuid_crate() {
    let bits = 0x550e8400_e29b_41d4_a716_446655440000;
    assert_eq!(parse_todo_id("550e8400e29b41d4a716446655440000"), Ok(TodoId(bits)));
    assert_eq!(parse_todo_id("550E8400-E29B-41D4-A716-446655440000"), Ok(TodoId(bits)));
    assert_eq!(
        parse_todo_id("urn:uuid:550e8400-e29b-41d4-a716-446655440000"),
        Ok(TodoId(bits))
    );
    assert_eq!(parse_todo_id("{550e8400-e29b-41d4-a716-446655440000}"), Ok(TodoId(bits)));
}

#[test]
fn parse_refuses_what_is_no_uuid() {
    for text in ["", "1", "not-a-uuid", "550e8400-e29b-41d4-a716-44665544000", "550e8400-e29b-41d4-a716-44665544000g", " 550e8400-e29b-41d4-a716-446655440000"] {
        assert_eq!(parse_todo_id(text), Err(StatusCode::BadRequest));
    }
}

#[test]
fn parse_agrees_with_the_uuid_crate_on_fresh_ids() {
    for _ in 0..10 {
        let id = TodoId::new();
        assert_eq!(parse_todo_id(&hyphenated(id)), Ok(id));
    }
}

#[test]
fn a_parsed_number_is_the_id() {
    assert_eq!(todo_id_or_bad_request(Some(7)), Ok(TodoId(7)));
    assert_eq!(todo_id_or_bad_request(Some(u128::MAX)), Ok(TodoId(u128::MAX)));
    assert_eq!(todo_id_or_bad_request(None), Err(StatusCode::BadRequest));
}

#[test]
fn each_failure_has_its_status() {
    assert_eq!(failure_status(&refusal()), StatusCode::BadRequest);
    assert_eq!(failure_status(&ServiceError::NotFound), StatusCode::NotFound);
    assert_eq!(failure_status(&database_failure()), StatusCode::InternalServerError);
    assert_eq!(
        failure_status(&ServiceError::Repository(RepositoryError::NotFound)),
        StatusCode::InternalServerError
    );
}

#[test]
fn a_response_hands_a_value_on_and_turns_a_failure_into_its_status() {
    assert_eq!(respond(Ok(sample())).unwrap().id, TodoId(1));
    assert_eq!(respond(Ok(vec![sample()])).unwrap().len(), 1);
    assert_eq!(respond(Ok(())), Ok(()));
    assert_eq!(respond::<Todo>(Err(ServiceError::NotFound)).unwrap_err(), StatusCode::NotFound);
    assert_eq!(respond::<Todo>(Err(refusal())).unwrap_err(), StatusCode::BadRequest);
    assert_eq!(
        respond::<Todo>(Err(database_failure())).unwrap_err(),
        StatusCode::InternalServerError
    );
    assert_eq!(respond::<()>(Err(ServiceError::NotFound)), Err(StatusCode::NotFound));
}

#[test]
fn handlers_serve_a_todo_from_creation_to_deletion() {
    let mut state = state();
    assert_eq!(get_todos(&state).unwrap().len(), 0);

    let created = create_todo(
        &mut state,
        CreateTodoRequest { title: "Buy milk".to_string(), description: None },
    )
    .unwrap();
    assert_eq!(created.title, "Buy milk");
    assert_eq!(created.status, TodoStatus::Pending);
    let id = hyphenated(created.id);

    let found = get_todo(&state, id.clone()).unwrap();
    assert_eq!(found.id, created.id);
    assert_eq!(found.title, "Buy milk");

    let updated = update_todo_status(
        &mut state,
        id.clone(),
        UpdateTodoStatusRequest { status: TodoStatus::Completed },
    )
    .unwrap();
    assert_eq!(updated.status, TodoStatus::Completed);
    assert_eq!(updated.id, created.id);

    let changed = update_todo(
        &mut state,
        id.clone(),
        UpdateTodoRequest { title: "Buy bread".to_string(), description: Some("rye".to_string()) },
    )
    .unwrap();
    assert_eq!(changed.title, "Buy bread");
    assert_eq!(changed.description, Some("rye".to_string()));
    assert_eq!(changed.status, TodoStatus::Completed);

    let all = get_todos(&state).unwrap();
    assert_eq!(all.len(), 1);
    assert_eq!(all[0].title, "Buy bread");

    assert_eq!(delete_todo(&mut state, id.clone()), Ok(StatusCode::NoContent));
    assert_eq!(get_todo(&state, id.clone()).unwrap_err(), StatusCode::NotFound);
    assert_eq!(delete_todo(&mut state, id), Err(StatusCode::NotFound));
    assert_eq!(get_todos(&state).unwrap().len(), 0);
}

#[test]
fn handlers_refuse_a_malformed_id() {
    let mut state = state();
    let bad = "no-uuid".to_string();
    assert_eq!(get_todo(&state, bad.clone()).unwrap_err(), StatusCode::BadRequest);
    assert_eq!(
        update_todo(
            &mut state,
            bad.clone(),
            UpdateTodoRequest { title: "a".to_string(), description: None },
        )
        .unwrap_err(),
        StatusCode::BadRequest
    );
    assert_eq!(
        update_todo_status(
            &mut state,
            bad.clone(),
            UpdateTodoStatusRequest { status: TodoStatus::Completed },
        )
        .unwrap_err(),
        StatusCode::BadRequest
    );
    assert_eq!(delete_todo(&mut state, bad), Err(StatusCode::BadRequest));
}

#[test]
fn handlers_answer_not_found_for_an_unknown_id() {
    let mut state = state();
    let id = "550e8400-e29b-41d4-a716-446655440000".to_string();
    assert_eq!(get_todo(&state, id.clone()).unwrap_err(), StatusCode::NotFound);
    assert_eq!(
        update_todo(
            &mut state,
            id.clone(),
            UpdateTodoRequest { title: "a".to_string(), description: None },
        )
        .unwrap_err(),
        StatusCode::NotFound
    );
    assert_eq!(
        update_todo_status(
            &mut state,
            id.clone(),
            UpdateTodoStatusRequest { status: TodoStatus::InProgress },
        )
        .unwrap_err(),
        StatusCode::NotFound
    );
    assert_eq!(delete_todo(&mut state, id), Err(StatusCode::NotFound));
}

#[test]
fn handlers_refuse_a_blank_title() {
    let mut state = state();
    assert_eq!(
        create_todo(&mut state, CreateTodoRequest { title: "  ".to_string(), description: None })
            .unwrap_err(),
        StatusCode::BadRequest
    );
    assert_eq!(
        create_todo(&mut state, CreateTodoRequest { title: String::new(), description: None })
            .unwrap_err(),
        StatusCode::BadRequest
    );
    assert_eq!(get_todos(&state).unwrap().len(), 0);

    let created =
        create_todo(&mut state, CreateTodoRequest { title: "a".to_string(), description: None })
            .unwrap();
    let id = hyphenated(created.id);
    assert_eq!(
        update_todo(
            &mut state,
            id.clone(),
            UpdateTodoRequest { title: "\t".to_string(), description: None },
        )
        .unwrap_err(),
        StatusCode::BadRequest
    );
    assert_eq!(get_todo(&state, id).unwrap().title, "a");
}

#[test]
fn a_blank_title_is_refused_before_an_unknown_id() {
    let mut state = state();
    let id = "550e8400-e29b-41d4-a716-446655440000".to_string();
    assert_eq!(
        update_todo(&mut state, id, UpdateTodoRequest { title: " ".to_string(), description: None })
            .unwrap_err(),
        StatusCode::BadRequest
    );
}
