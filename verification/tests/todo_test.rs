use todo_service::domain::UpdateTodoRequest;
use todo_service::error::ApplicationError;
use todo_service::id::{FixedIdGenerator, IdGenerator, TodoId, UlidGenerator};
use todo_service::repository::MemoryTodoRepository;
use todo_service::response::TodoResponse;
use todo_service::service::TodoService;
use todo_service::time::{parse_rfc3339, FixedClock, Timestamp};
use todo_service::validation::{parse_create_request, parse_update_request};

const DATETIME_STRING: &str = "2023-11-04T15:32:34.205052Z";

fn frozen_time() -> Timestamp {
    parse_rfc3339(DATETIME_STRING).expect("the frozen test instant is well-formed")
}

fn fixed_service(id: u128) -> TodoService<MemoryTodoRepository, FixedClock, FixedIdGenerator> {
    TodoService::new(
        MemoryTodoRepository::new(),
        FixedClock::new(frozen_time()),
        FixedIdGenerator::new(TodoId { value: id }),
    )
}

fn create_one_todo(
    service: &mut TodoService<MemoryTodoRepository, FixedClock, FixedIdGenerator>,
    subject: &str,
    description: &str,
) {
    let request = parse_create_request(
        subject.to_string(),
        description.to_string(),
        DATETIME_STRING.to_string(),
    )
    .expect("the fixture payload is valid");
    service.create_todo(request).expect("unable to create todo");
}

fn canonical_text(id: u128) -> String {
    UlidGenerator::new().to_string(&TodoId { value: id })
}

#[test]
fn fails_for_bad_input() {
    let result = parse_create_request(
        "Buy groceries".to_string(),
        "Buy groceries from the supermarket for the weekend.".to_string(),
        "ALIEN DATE".to_string(),
    );
    let error = result.err().expect("an unreadable due date must be rejected");
    assert_eq!(error.status_code(), 400);
    assert_eq!(error.to_problem().code, "VALIDATION_ERROR");
}

#[test]
fn successfully_create_todos() {
    let mut service = fixed_service(77);
    let request = parse_create_request(
        "Buy groceries".to_string(),
        "Buy groceries from the supermarket for the weekend.".to_string(),
        DATETIME_STRING.to_string(),
    )
    .expect("the payload is valid");

    let todo = service.create_todo(request).expect("creation must succeed");
    let body = TodoResponse::of_todo(todo);

    assert_eq!(body.id, canonical_text(77));
    assert_eq!(body.subject, "Buy groceries");
    assert_eq!(
        body.description,
        "Buy groceries from the supermarket for the weekend."
    );
    assert_eq!(body.is_done, false);
    assert_eq!(body.due_date, frozen_time());
    assert_eq!(body.created_at, frozen_time());
    assert_eq!(body.updated_at, frozen_time());
}

#[test]
fn returns_not_found_for_bad_input() {
    let service = fixed_service(1);
    let error = service
        .get_todo_by_id("BAD_ID")
        .err()
        .expect("a malformed id must be rejected");
    assert!(matches!(error, ApplicationError::NotFound(_)));
    assert_eq!(error.status_code(), 404);
    assert_eq!(error.to_problem().code, "RESOURCE_NOT_FOUND");
}

#[test]
fn returns_not_found_when_not_found_by_id() {
    let mut service = fixed_service(2);
    create_one_todo(&mut service, "Dummy subject", "Dummy description");

    let absent = canonical_text(999_999);
    let error = service
        .get_todo_by_id(&absent)
        .err()
        .expect("an absent id must not be found");
    assert!(matches!(error, ApplicationError::NotFound(_)));
    assert_eq!(error.status_code(), 404);
}

#[test]
fn successfully_gets_todo_by_id() {
    let mut service = fixed_service(3);
    create_one_todo(&mut service, "Dummy subject", "Dummy description");

    let todo = service
        .get_todo_by_id(&canonical_text(3))
        .expect("the stored todo must be found");
    let body = TodoResponse::of_todo(todo);

    assert_eq!(body.id, canonical_text(3));
    assert_eq!(body.subject, "Dummy subject");
    assert_eq!(body.description, "Dummy description");
    assert_eq!(body.is_done, false);
    assert_eq!(body.due_date, frozen_time());
    assert_eq!(body.created_at, frozen_time());
}

#[test]
fn successfully_gets_todos() {
    let mut service = fixed_service(4);
    create_one_todo(&mut service, "Dummy subject", "Dummy description");

    let todos = service.get_todos().expect("listing must succeed");
    assert!(todos.len() > 0);
}

#[test]
fn returns_bad_request_for_bad_input() {
    let error = parse_update_request(
        Some("Update subject".to_string()),
        Some("Updated description".to_string()),
        None,
        Some("ALIEN DATE".to_string()),
    )
    .err()
    .expect("an unreadable due date must be rejected");
    assert_eq!(error.status_code(), 400);
    assert_eq!(error.to_problem().code, "VALIDATION_ERROR");
}

#[test]
fn update_returns_not_found_when_not_found_by_id() {
    let mut service = fixed_service(5);
    create_one_todo(&mut service, "Dummy subject", "Dummy description");

    let update = UpdateTodoRequest {
        subject: Some("Update subject".to_string()),
        description: Some("Updated description".to_string()),
        is_done: Some(false),
        due_date: None,
    };
    let absent = canonical_text(999_998);
    let error = service
        .update_todo(&absent, update)
        .err()
        .expect("an absent id must not be updated");
    assert!(matches!(error, ApplicationError::NotFound(_)));
    assert_eq!(error.status_code(), 404);
    assert_eq!(error.to_problem().code, "RESOURCE_NOT_FOUND");
}

#[test]
fn successfully_updates_todo() {
    let mut service = fixed_service(6);
    create_one_todo(&mut service, "Dummy subject", "Dummy description");

    let update = UpdateTodoRequest {
        subject: Some("Updated subject".to_string()),
        description: Some("Updated description".to_string()),
        is_done: Some(true),
        due_date: None,
    };
    let todo = service
        .update_todo(&canonical_text(6), update)
        .expect("the update must succeed");
    let body = TodoResponse::of_todo(todo);

    assert_eq!(body.id, canonical_text(6));
    assert_eq!(body.subject, "Updated subject");
    assert_eq!(body.description, "Updated description");
    assert_eq!(body.is_done, true);
    assert_eq!(body.due_date, frozen_time());
    assert_eq!(body.created_at, frozen_time());
}

#[test]
fn delete_returns_not_found_when_not_found_by_id() {
    let mut service = fixed_service(7);
    create_one_todo(&mut service, "Dummy subject", "Dummy description");

    let absent = canonical_text(999_997);
    let error = service
        .delete_todo(&absent)
        .err()
        .expect("an absent id must not be deleted");
    assert!(matches!(error, ApplicationError::NotFound(_)));
    assert_eq!(error.status_code(), 404);
}

#[test]
fn successfully_deletes_todo() {
    let mut service = fixed_service(8);
    create_one_todo(&mut service, "Dummy subject", "Dummy description");

    let todo = service
        .delete_todo(&canonical_text(8))
        .expect("the delete must succeed");
    let body = TodoResponse::of_todo(todo);

    assert_eq!(body.id, canonical_text(8));
    assert_eq!(body.subject, "Dummy subject");
    assert_eq!(body.description, "Dummy description");
    assert_eq!(body.is_done, false);
    assert_eq!(body.due_date, frozen_time());
    assert_eq!(body.created_at, frozen_time());

    let error = service
        .get_todo_by_id(&canonical_text(8))
        .err()
        .expect("the deleted todo must be gone");
    assert!(matches!(error, ApplicationError::NotFound(_)));
}

#[test]
fn returns_empty_array_if_none_found() {
    let mut service = fixed_service(9);
    create_one_todo(&mut service, "Dummy subject", "Dummy description");

    let todos = service.search_todo("qwerty").expect("search must not fail");
    assert_eq!(todos.len(), 0);
}

#[test]
fn returns_array_of_todos_if_found() {
    let mut service = fixed_service(10);
    create_one_todo(&mut service, "Dummy subject", "Dummy description");

    let todos = service.search_todo("Dummy").expect("search must not fail");
    assert!(todos.len() > 0);
}
