use todo_service::config::{error_message, Constant, Environment};
use todo_service::domain::{TodoModel, TodoModelUpdate, UpdateTodoRequest};
use todo_service::error::{ApplicationError, Problem, RepositoryError};
use todo_service::id::{reparse_canonical, FixedIdGenerator, IdGenerator, TodoId, UlidGenerator};
use todo_service::repository::MemoryTodoRepository;
use todo_service::service::TodoService;
use todo_service::text::contains_text;
use todo_service::time::{parse_rfc3339, FixedClock, Timestamp};
use todo_service::validation::{
    parse_create_request, parse_search_request, parse_update_request,
    validate_datetime_from_string, validate_ulid, ValidationError,
};

const DATETIME_STRING: &str = "2023-11-04T15:32:34.205052Z";

fn frozen_time() -> Timestamp {
    parse_rfc3339(DATETIME_STRING).expect("the frozen test instant is well-formed")
}

fn service_at(
    id: u128,
    now: Timestamp,
) -> TodoService<MemoryTodoRepository, FixedClock, FixedIdGenerator> {
    TodoService::new(
        MemoryTodoRepository::new(),
        FixedClock::new(now),
        FixedIdGenerator::new(TodoId { value: id }),
    )
}

fn create_with(
    service: &mut TodoService<MemoryTodoRepository, FixedClock, FixedIdGenerator>,
    id: u128,
    subject: &str,
    description: &str,
) {
    service.id_generator = FixedIdGenerator::new(TodoId { value: id });
    let request = parse_create_request(
        subject.to_string(),
        description.to_string(),
        DATETIME_STRING.to_string(),
    )
    .expect("the fixture payload is valid");
    service.create_todo(request).expect("unable to create todo");
}

#[test]
fn generated_id_round_trips_through_text() {
    let generator = UlidGenerator::new();
    for _ in 0..32 {
        let id = generator.generate();
        assert_eq!(reparse_canonical(&generator, id), id);
        let text = generator.to_string(&id);
        let back = generator.parse(&text).expect("canonical text must parse");
        assert_eq!(back, id);
    }
}

#[test]
fn id_text_matches_the_ulid_crate() {
    let generator = UlidGenerator::new();
    let id = TodoId {
        value: 0x4141_4141_4141_4141_4141_4141_4141_4141,
    };
    assert_eq!(generator.to_string(&id), ulid::Ulid(id.value).to_string());

    let text = "01HDS25AGAJ88WNXE5KZ3CN8KG";
    let parsed = generator.parse(text).expect("a ULID literal must parse");
    assert_eq!(generator.to_string(&parsed), text);
    assert_eq!(parsed.value, u128::from(ulid::Ulid::from_string(text).unwrap()));
}

#[test]
fn timestamps_match_the_chrono_crate() {
    let t = frozen_time();
    let reference = chrono::DateTime::parse_from_rfc3339(DATETIME_STRING).unwrap();
    assert_eq!(t.secs, reference.timestamp());
    assert_eq!(t.nanos, reference.timestamp_subsec_nanos());
    assert_eq!(t.nanos, 205_052_000);
}

#[test]
fn unreadable_datetime_is_rejected() {
    assert!(parse_rfc3339("ALIEN DATE").is_none());
    assert!(validate_datetime_from_string("2023-13-99T99:99:99Z".to_string()).is_err());
    assert!(validate_datetime_from_string(DATETIME_STRING.to_string()).is_ok());
}

#[test]
fn malformed_ulid_is_rejected() {
    match validate_ulid("BAD_ID".to_string()) {
        Err(ValidationError::InvalidUlid(text)) => assert_eq!(text, "BAD_ID"),
        Ok(_) => panic!("a malformed id must be rejected"),
    }
    assert!(validate_ulid("01HDS25AGAJ88WNXE5KZ3CN8KG".to_string()).is_ok());
}

#[test]
fn substring_search_agrees_with_std() {
    let cases = [
        ("Buy groceries", "groceries"),
        ("Buy groceries", "Buy groceries from the supermarket"),
        ("", ""),
        ("abc", ""),
        ("abc", "abcd"),
        ("ababc", "abc"),
        ("Dummy subject", "Dummy"),
        ("Dummy subject", "dummy"),
    ];
    for (hay, needle) in cases {
        assert_eq!(contains_text(hay, needle), hay.contains(needle), "{hay} / {needle}");
    }
}

#[test]
fn created_todo_is_not_done_and_stamped_with_the_clock() {
    let now = Timestamp { secs: 1_700_000_000, nanos: 123 };
    let mut service = service_at(11, now);
    let request = parse_create_request(
        "a".to_string(),
        "b".to_string(),
        DATETIME_STRING.to_string(),
    )
    .expect("the payload is valid");
    let todo = service.create_todo(request).expect("creation must succeed");
    assert_eq!(todo.is_done, false);
    assert_eq!(todo.created_at, now);
    assert_eq!(todo.updated_at, now);
}

#[test]
fn create_with_a_taken_id_is_a_server_error() {
    let mut service = service_at(12, frozen_time());
    create_with(&mut service, 12, "first", "first description");
    let request = parse_create_request(
        "second".to_string(),
        "second description".to_string(),
        DATETIME_STRING.to_string(),
    )
    .expect("the payload is valid");
    let error = service
        .create_todo(request)
        .err()
        .expect("a taken id must be refused");
    assert_eq!(error.status_code(), 500);
    assert_eq!(error.to_problem().code, "SERVER_ERROR");
}

#[test]
fn merge_takes_present_fields_and_keeps_absent_ones() {
    let existing = TodoModel {
        id: "01HDS25AGAJ88WNXE5KZ3CN8KG".to_string(),
        subject: "old subject".to_string(),
        description: "old description".to_string(),
        is_done: false,
        due_date: Timestamp { secs: 10, nanos: 0 },
        created_at: Timestamp { secs: 1, nanos: 0 },
        updated_at: Timestamp { secs: 2, nanos: 0 },
    };
    let update = UpdateTodoRequest {
        subject: Some("new subject".to_string()),
        description: None,
        is_done: Some(true),
        due_date: None,
    };
    let merged = TodoModelUpdate::merge(existing, update);
    assert_eq!(merged.subject, "new subject");
    assert_eq!(merged.description, "old description");
    assert_eq!(merged.is_done, true);
    assert_eq!(merged.due_date, Timestamp { secs: 10, nanos: 0 });
}

#[test]
fn update_changes_exactly_the_requested_fields() {
    let mut service = service_at(13, frozen_time());
    create_with(&mut service, 13, "old subject", "old description");
    let text = UlidGenerator::new().to_string(&TodoId { value: 13 });

    let update = UpdateTodoRequest {
        subject: Some("new subject".to_string()),
        description: None,
        is_done: None,
        due_date: None,
    };
    let todo = service.update_todo(&text, update).expect("the update must succeed");
    assert_eq!(todo.subject, "new subject");
    assert_eq!(todo.description, "old description");
    assert_eq!(todo.is_done, false);
    assert_eq!(todo.due_date, frozen_time());
    assert_eq!(todo.created_at, frozen_time());
}

#[test]
fn update_can_move_the_due_date_alone() {
    let mut service = service_at(15, frozen_time());
    create_with(&mut service, 15, "subject", "description");
    let text = UlidGenerator::new().to_string(&TodoId { value: 15 });

    let request = parse_update_request(
        None,
        None,
        None,
        Some("2024-01-01T00:00:00Z".to_string()),
    )
    .expect("a well-formed due date must be accepted");
    let todo = service.update_todo(&text, request).expect("the update must succeed");
    assert_eq!(todo.due_date, parse_rfc3339("2024-01-01T00:00:00Z").unwrap());
    assert_eq!(todo.subject, "subject");
    assert_eq!(todo.description, "description");
    assert_eq!(todo.is_done, false);
}

#[test]
fn update_time_never_regresses() {
    let created = Timestamp { secs: 100, nanos: 0 };
    let later = Timestamp { secs: 200, nanos: 0 };
    let earlier = Timestamp { secs: 50, nanos: 0 };

    let mut service = service_at(14, created);
    create_with(&mut service, 14, "subject", "description");
    let text = UlidGenerator::new().to_string(&TodoId { value: 14 });

    // A write at an earlier instant keeps the existing update time.
    service.clock = FixedClock::new(earlier);
    let update = UpdateTodoRequest { subject: None, description: None, is_done: Some(true), due_date: None };
    let todo = service.update_todo(&text, update).expect("the update must succeed");
    assert_eq!(todo.updated_at, created);

    // A write at a later instant moves it forward.
    service.clock = FixedClock::new(later);
    let update = UpdateTodoRequest { subject: None, description: None, is_done: Some(false), due_date: None };
    let todo = service.update_todo(&text, update).expect("the update must succeed");
    assert_eq!(todo.updated_at, later);
    assert_eq!(todo.created_at, created);
}

#[test]
fn listing_keeps_insertion_order() {
    let mut service = service_at(21, frozen_time());
    create_with(&mut service, 21, "first", "one");
    create_with(&mut service, 22, "second", "two");
    create_with(&mut service, 23, "third", "three");

    let todos = service.get_todos().expect("listing must succeed");
    let subjects: Vec<&str> = todos.iter().map(|t| t.subject.as_str()).collect();
    assert_eq!(subjects, vec!["first", "second", "third"]);
}

#[test]
fn search_ranks_subject_matches_above_description_matches() {
    let mut service = service_at(31, frozen_time());
    create_with(&mut service, 31, "nothing here", "token in the description");
    create_with(&mut service, 32, "token in the subject", "nothing here");
    create_with(&mut service, 33, "unrelated", "unrelated");

    let todos = service.search_todo("token").expect("search must not fail");
    let subjects: Vec<&str> = todos.iter().map(|t| t.subject.as_str()).collect();
    assert_eq!(subjects, vec!["token in the subject", "nothing here"]);
}

#[test]
fn search_with_no_match_is_empty_not_an_error() {
    let mut service = service_at(41, frozen_time());
    create_with(&mut service, 41, "subject", "description");
    let todos = service
        .search_todo("no-match-token")
        .expect("an unmatched term is no failure");
    assert!(todos.is_empty());
}

#[test]
fn empty_search_term_is_rejected_before_the_service() {
    let error = parse_search_request("".to_string())
        .err()
        .expect("an empty term must be rejected");
    assert_eq!(error.status_code(), 400);
    assert_eq!(error.to_problem().code, "VALIDATION_ERROR");
    assert!(parse_search_request("groceries".to_string()).is_ok());
}

#[test]
fn validation_reports_every_violated_constraint() {
    let error = parse_create_request("".to_string(), "".to_string(), "ALIEN DATE".to_string())
        .err()
        .expect("an empty request must be rejected");
    match &error {
        ApplicationError::ValidationError(issues) => assert_eq!(issues.len(), 3),
        other => panic!("expected a validation error, got {:?}", other.status_code()),
    }
}

#[test]
fn repository_errors_translate_to_application_errors() {
    let connection = ApplicationError::of_repository(RepositoryError::Connection(
        "store unreachable".to_string(),
    ));
    assert_eq!(connection.status_code(), 500);

    let query = ApplicationError::of_repository(RepositoryError::Query("rejected".to_string()));
    assert_eq!(query.status_code(), 500);
    // Server-side detail is never echoed to the caller.
    assert_eq!(
        query.to_problem().issues,
        vec!["This is on us, we will take care of it.".to_string()]
    );

    let absent = ApplicationError::of_repository(RepositoryError::NotFound("X123".to_string()));
    assert_eq!(absent.status_code(), 404);
    assert_eq!(
        absent.to_problem().issues,
        vec!["resource with id X123 does not exist!".to_string()]
    );
}

#[test]
fn problem_and_constant_carry_their_values() {
    let problem = Problem::new("SERVER_ERROR".to_string(), vec!["a".to_string()]);
    assert_eq!(problem.code, "SERVER_ERROR");
    assert_eq!(problem.issues, vec!["a".to_string()]);

    let constant = Constant::new();
    assert_eq!(constant.app_name, "APPLICATION NAME GOES HERE");

    assert_eq!(error_message("PORT"), "PORT is required env variable!");
}

#[test]
fn environment_names_parse_exactly() {
    assert_eq!(Environment::from_text("prod"), Some(Environment::Production));
    assert_eq!(Environment::from_text("dev"), Some(Environment::Development));
    assert_eq!(Environment::from_text("test"), Some(Environment::Test));
    assert_eq!(Environment::from_text("staging"), None);
}
