use std::cmp::Ordering;
use todo_service::domain::todo::{RANDOM_VERSION_AND_VARIANT, VERSION_AND_VARIANT_BITS};
use todo_service::domain::{Timestamp, Todo, TodoId, TodoStatus};

fn at(secs: i64, nanos: u32) -> Timestamp {
    Timestamp { secs, nanos }
}

#[test]
fn fresh_ids_are_random_uuids() {
    let a = TodoId::new();
    let b = TodoId::new();
    assert_eq!(a.0 & VERSION_AND_VARIANT_BITS, RANDOM_VERSION_AND_VARIANT);
    assert_eq!(b.0 & VERSION_AND_VARIANT_BITS, RANDOM_VERSION_AND_VARIANT);
    assert_eq!((a.0 >> 76) & 0xf, 4);
    assert_eq!((a.0 >> 62) & 0x3, 2);
    assert_ne!(a, b);
}

#[test]
fn fresh_ids_agree_with_the_uuid_crate() {
    let id = TodoId::new();
    let uuid = uuid::Uuid::from_u128(id.0);
    assert_eq!(uuid.get_version_num(), 4);
    assert_eq!(uuid.as_u128(), id.0);
}

#[test]
fn new_todo_is_pending_and_stamped_once() {
    let todo = Todo::new("Buy milk".to_string(), Some("two litres".to_string()));
    assert_eq!(todo.title, "Buy milk");
    assert_eq!(todo.description, Some("two litres".to_string()));
    assert_eq!(todo.status, TodoStatus::Pending);
    assert_eq!(todo.created_at, todo.updated_at);
    assert_eq!(todo.id.0 & VERSION_AND_VARIANT_BITS, RANDOM_VERSION_AND_VARIANT);
}

#[test]
fn new_todo_takes_any_title() {
    let todo = Todo::new("   ".to_string(), None);
    assert_eq!(todo.title, "   ");
    assert_eq!(todo.description, None);
    let empty = Todo::new(String::new(), None);
    assert_eq!(empty.title, "");
}

#[test]
fn new_todo_is_stamped_with_the_current_time() {
    let before = chrono::Utc::now();
    let todo = Todo::new("t".to_string(), None);
    let after = chrono::Utc::now();
    let low = (before.timestamp(), before.timestamp_subsec_nanos());
    let high = (after.timestamp(), after.timestamp_subsec_nanos());
    let got = (todo.created_at.secs, todo.created_at.nanos);
    assert!(low <= got && got <= high);
    assert!(todo.created_at.secs >= 0);
    assert!(todo.created_at.nanos < 1_000_000_000);
}

#[test]
fn created_builds_exactly_what_it_is_given() {
    let todo = Todo::created(TodoId(7), "a".to_string(), None, at(10, 20));
    assert_eq!(todo.id, TodoId(7));
    assert_eq!(todo.title, "a");
    assert_eq!(todo.description, None);
    assert_eq!(todo.status, TodoStatus::Pending);
    assert_eq!(todo.created_at, at(10, 20));
    assert_eq!(todo.updated_at, at(10, 20));
}

#[test]
fn update_status_at_sets_status_and_instant_only() {
    let mut todo = Todo::created(TodoId(7), "a".to_string(), Some("d".to_string()), at(10, 20));
    todo.update_status_at(TodoStatus::Completed, at(11, 0));
    assert_eq!(todo.id, TodoId(7));
    assert_eq!(todo.title, "a");
    assert_eq!(todo.description, Some("d".to_string()));
    assert_eq!(todo.status, TodoStatus::Completed);
    assert_eq!(todo.created_at, at(10, 20));
    assert_eq!(todo.updated_at, at(11, 0));
    assert!(todo.updated_at > todo.created_at);
}

#[test]
fn any_status_may_follow_any_other() {
    let all = [TodoStatus::Pending, TodoStatus::InProgress, TodoStatus::Completed];
    for from in all {
        for to in all {
            let mut todo = Todo::created(TodoId(1), "a".to_string(), None, at(0, 0));
            todo.update_status_at(from, at(1, 0));
            todo.update_status_at(to, at(2, 0));
            assert_eq!(todo.status, to);
            assert_eq!(todo.updated_at, at(2, 0));
        }
    }
}

#[test]
fn update_content_at_sets_texts_and_instant_only() {
    let mut todo = Todo::created(TodoId(9), "a".to_string(), Some("d".to_string()), at(10, 20));
    todo.update_status_at(TodoStatus::InProgress, at(10, 30));
    todo.update_content_at("b".to_string(), None, at(12, 5));
    assert_eq!(todo.id, TodoId(9));
    assert_eq!(todo.title, "b");
    assert_eq!(todo.description, None);
    assert_eq!(todo.status, TodoStatus::InProgress);
    assert_eq!(todo.created_at, at(10, 20));
    assert_eq!(todo.updated_at, at(12, 5));
}

#[test]
fn update_content_at_takes_any_title() {
    let mut todo = Todo::created(TodoId(9), "a".to_string(), None, at(1, 0));
    todo.update_content_at(String::new(), Some(String::new()), at(2, 0));
    assert_eq!(todo.title, "");
    assert_eq!(todo.description, Some(String::new()));
}

#[test]
fn update_status_stamps_the_current_time() {
    let mut todo = Todo::created(TodoId(3), "a".to_string(), None, at(0, 0));
    let before = chrono::Utc::now();
    todo.update_status(TodoStatus::InProgress);
    let after = chrono::Utc::now();
    let low = (before.timestamp(), before.timestamp_subsec_nanos());
    let high = (after.timestamp(), after.timestamp_subsec_nanos());
    let got = (todo.updated_at.secs, todo.updated_at.nanos);
    assert!(low <= got && got <= high);
    assert_eq!(todo.status, TodoStatus::InProgress);
    assert_eq!(todo.created_at, at(0, 0));
    assert_eq!(todo.title, "a");
}

#[test]
fn update_content_stamps_the_current_time() {
    let mut todo = Todo::created(TodoId(3), "a".to_string(), None, at(0, 0));
    let before = chrono::Utc::now();
    todo.update_content("b".to_string(), Some("c".to_string()));
    let after = chrono::Utc::now();
    let low = (before.timestamp(), before.timestamp_subsec_nanos());
    let high = (after.timestamp(), after.timestamp_subsec_nanos());
    let got = (todo.updated_at.secs, todo.updated_at.nanos);
    assert!(low <= got && got <= high);
    assert_eq!(todo.title, "b");
    assert_eq!(todo.description, Some("c".to_string()));
    assert_eq!(todo.status, TodoStatus::Pending);
    assert_eq!(todo.created_at, at(0, 0));
}

#[test]
fn clone_copies_every_field() {
    let mut todo = Todo::created(TodoId(4), "a".to_string(), Some("d".to_string()), at(5, 6));
    todo.update_status_at(TodoStatus::Completed, at(7, 8));
    let copy = todo.clone();
    assert_eq!(copy.id, todo.id);
    assert_eq!(copy.title, todo.title);
    assert_eq!(copy.description, todo.description);
    assert_eq!(copy.status, todo.status);
    assert_eq!(copy.created_at, todo.created_at);
    assert_eq!(copy.updated_at, todo.updated_at);
}

#[test]
fn instants_are_ordered_by_seconds_then_nanoseconds() {
    assert_eq!(at(1, 5).partial_cmp(&at(2, 0)), Some(Ordering::Less));
    assert_eq!(at(2, 0).partial_cmp(&at(1, 999_999_999)), Some(Ordering::Greater));
    assert_eq!(at(1, 5).partial_cmp(&at(1, 6)), Some(Ordering::Less));
    assert_eq!(at(1, 6).partial_cmp(&at(1, 5)), Some(Ordering::Greater));
    assert_eq!(at(1, 5).partial_cmp(&at(1, 5)), Some(Ordering::Equal));
    assert_eq!(at(-1, 0).partial_cmp(&at(0, 0)), Some(Ordering::Less));
    assert!(at(1, 5) < at(1, 6));
    assert!(at(1, 5) <= at(1, 5));
    assert!(at(3, 0) > at(2, 999_999_999));
    assert!(at(3, 0) >= at(3, 0));
    assert!(!(at(3, 0) < at(3, 0)));
}
