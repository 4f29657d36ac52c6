//! Response shapes: what the transport layer sends back.
//!
//! A [`TodoResponse`] is a domain todo with its identifier rendered in the
//! canonical text form; every other field is passed through. The health
//! answer reports the API itself and the store it depends on.

use vstd::prelude::*;
use vstd::string::StringExecFns;

use crate::domain::Todo;
use crate::id::{ulid_string_of, ulid_to_string};
use crate::time::Timestamp;

verus! {

/// A todo as it is sent to a client: the identifier as canonical text, every
/// other field as it stands on the domain entity.
#[derive(Debug)]
pub struct TodoResponse {
    pub id: String,
    pub subject: String,
    pub description: String,
    pub is_done: bool,
    pub due_date: Timestamp,
    pub created_at: Timestamp,
    pub updated_at: Timestamp,
}

impl TodoResponse {
    /// Renders a domain todo for the client: the identifier becomes its
    /// canonical text, everything else is passed through.
    pub fn of_todo(todo: Todo) -> (r: TodoResponse)
        ensures
            r.id@ == ulid_string_of(todo.id.value),
            r.subject@ == todo.subject@,
            r.description@ == todo.description@,
            r.is_done == todo.is_done,
            r.due_date == todo.due_date,
            r.created_at == todo.created_at,
            r.updated_at == todo.updated_at,
    {
        TodoResponse {
            id: ulid_to_string(&todo.id),
            subject: todo.subject,
            description: todo.description,
            is_done: todo.is_done,
            due_date: todo.due_date,
            created_at: todo.created_at,
            updated_at: todo.updated_at,
        }
    }
}

/// The health answer: the API answered, and the store either did or did not.
#[derive(Debug)]
pub struct HealthStatusResponse {
    pub api: String,
    pub database: String,
}

/// The health report: the API is `OK` by virtue of answering; the store is
/// `OK` exactly when it responded.
pub fn health_status(database_ok: bool) -> (r: HealthStatusResponse)
    ensures
        r.api@ == "OK"@,
        r.database@ == (if database_ok {
            "OK"@
        } else {
            "NOK"@
        }),
{
    HealthStatusResponse {
        api: "OK".to_owned(),
        database: if database_ok {
            "OK".to_owned()
        } else {
            "NOK".to_owned()
        },
    }
}

} // verus!
