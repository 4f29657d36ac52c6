//! The todo entity and its request and storage shapes.
//!
//! A [`Todo`] is the domain entity. A [`TodoModel`] is its stored shape: the
//! identifier is kept as the canonical text the store indexes by, and reading
//! it back into a [`TodoId`] is the service's data-integrity check. The
//! request types carry what a client may send; [`TodoModelUpdate::merge`]
//! lays an update over an existing record.

use vstd::prelude::*;

use crate::id::{ulid_parse_of, ulid_string_of, TodoId};
use crate::time::Timestamp;

verus! {

/// The domain entity: one todo item.
#[derive(Debug)]
pub struct Todo {
    pub id: TodoId,
    pub subject: String,
    pub description: String,
    pub is_done: bool,
    pub due_date: Timestamp,
    pub created_at: Timestamp,
    pub updated_at: Timestamp,
}

/// The mathematical shape of a [`Todo`]: text as character sequences.
pub struct TodoView {
    pub id: TodoId,
    pub subject: Seq<char>,
    pub description: Seq<char>,
    pub is_done: bool,
    pub due_date: Timestamp,
    pub created_at: Timestamp,
    pub updated_at: Timestamp,
}

impl View for Todo {
    type V = TodoView;

    open spec fn view(&self) -> TodoView {
        TodoView {
            id: self.id,
            subject: self.subject@,
            description: self.description@,
            is_done: self.is_done,
            due_date: self.due_date,
            created_at: self.created_at,
            updated_at: self.updated_at,
        }
    }
}

/// A todo as the store keeps it: the identifier in its canonical text form.
#[derive(Debug)]
pub struct TodoModel {
    pub id: String,
    pub subject: String,
    pub description: String,
    pub is_done: bool,
    pub due_date: Timestamp,
    pub created_at: Timestamp,
    pub updated_at: Timestamp,
}

/// The mathematical shape of a [`TodoModel`].
pub struct TodoModelView {
    pub id: Seq<char>,
    pub subject: Seq<char>,
    pub description: Seq<char>,
    pub is_done: bool,
    pub due_date: Timestamp,
    pub created_at: Timestamp,
    pub updated_at: Timestamp,
}

impl View for TodoModel {
    type V = TodoModelView;

    open spec fn view(&self) -> TodoModelView {
        TodoModelView {
            id: self.id@,
            subject: self.subject@,
            description: self.description@,
            is_done: self.is_done,
            due_date: self.due_date,
            created_at: self.created_at,
            updated_at: self.updated_at,
        }
    }
}

impl Clone for TodoModel {
    /// A clone carries the very same record.
    fn clone(&self) -> (r: Self)
        ensures
            r@ == self@,
    {
        TodoModel {
            id: self.id.clone(),
            subject: self.subject.clone(),
            description: self.description.clone(),
            is_done: self.is_done,
            due_date: self.due_date,
            created_at: self.created_at,
            updated_at: self.updated_at,
        }
    }
}

/// How a domain todo is laid down in storage: the identifier becomes its
/// canonical text, every other field is kept as it is.
pub open spec fn model_of(t: TodoView) -> TodoModelView {
    TodoModelView {
        id: ulid_string_of(t.id.value),
        subject: t.subject,
        description: t.description,
        is_done: t.is_done,
        due_date: t.due_date,
        created_at: t.created_at,
        updated_at: t.updated_at,
    }
}

/// How a stored record reads back as a domain todo. Only meaningful when its
/// stored identifier parses: `ulid_parse_of(m.id)` must be `Some`.
pub open spec fn todo_of_model(m: TodoModelView) -> TodoView {
    TodoView {
        id: TodoId { value: ulid_parse_of(m.id)->Some_0 },
        subject: m.subject,
        description: m.description,
        is_done: m.is_done,
        due_date: m.due_date,
        created_at: m.created_at,
        updated_at: m.updated_at,
    }
}

/// What a client sends to create a todo. The subject and description must be
/// non-empty and the due date well-formed; request validation checks that
/// before the service is reached.
#[derive(Debug)]
pub struct CreateTodoRequest {
    pub subject: String,
    pub description: String,
    pub due_date: Timestamp,
}

impl CreateTodoRequest {
    /// A valid creation request: both texts non-empty, the date well-formed.
    pub open spec fn wf(self) -> bool {
        self.subject@.len() > 0 && self.description@.len() > 0 && self.due_date.wf()
    }
}

/// What a client may send to change a todo: every field optional; absent
/// fields keep the existing values.
#[derive(Debug)]
pub struct UpdateTodoRequest {
    pub subject: Option<String>,
    pub description: Option<String>,
    pub is_done: Option<bool>,
    pub due_date: Option<Timestamp>,
}

/// The mathematical shape of an [`UpdateTodoRequest`].
pub struct UpdateTodoRequestView {
    pub subject: Option<Seq<char>>,
    pub description: Option<Seq<char>>,
    pub is_done: Option<bool>,
    pub due_date: Option<Timestamp>,
}

impl View for UpdateTodoRequest {
    type V = UpdateTodoRequestView;

    open spec fn view(&self) -> UpdateTodoRequestView {
        UpdateTodoRequestView {
            subject: match self.subject {
                Some(s) => Some(s@),
                None => None,
            },
            description: match self.description {
                Some(s) => Some(s@),
                None => None,
            },
            is_done: self.is_done,
            due_date: self.due_date,
        }
    }
}

/// A search: the non-empty term to look for in subjects and descriptions.
#[derive(Debug)]
pub struct SearchTodoRequest {
    pub q: String,
}

/// The fields an update writes, once merged over the existing record.
#[derive(Debug)]
pub struct TodoModelUpdate {
    pub subject: String,
    pub description: String,
    pub is_done: bool,
    pub due_date: Timestamp,
}

/// The mathematical shape of a [`TodoModelUpdate`].
pub struct TodoModelUpdateView {
    pub subject: Seq<char>,
    pub description: Seq<char>,
    pub is_done: bool,
    pub due_date: Timestamp,
}

impl View for TodoModelUpdate {
    type V = TodoModelUpdateView;

    open spec fn view(&self) -> TodoModelUpdateView {
        TodoModelUpdateView {
            subject: self.subject@,
            description: self.description@,
            is_done: self.is_done,
            due_date: self.due_date,
        }
    }
}

/// The merge policy: a field present in the update wins, an absent field
/// keeps the existing record's value.
pub open spec fn merged_update(m: TodoModelView, u: UpdateTodoRequestView) -> TodoModelUpdateView {
    TodoModelUpdateView {
        subject: match u.subject {
            Some(s) => s,
            None => m.subject,
        },
        description: match u.description {
            Some(s) => s,
            None => m.description,
        },
        is_done: match u.is_done {
            Some(b) => b,
            None => m.is_done,
        },
        due_date: match u.due_date {
            Some(d) => d,
            None => m.due_date,
        },
    }
}

/// The stored record after an update is written at time `now`: the merged
/// fields replace the old ones, the identifier and creation time stay, and
/// the update time moves to `now` unless it already lies at or past it —
/// the store's guard that `updated_at` never regresses.
pub open spec fn updated_model(
    m: TodoModelView,
    up: TodoModelUpdateView,
    now: Timestamp,
) -> TodoModelView {
    TodoModelView {
        id: m.id,
        subject: up.subject,
        description: up.description,
        is_done: up.is_done,
        due_date: up.due_date,
        created_at: m.created_at,
        updated_at: if m.updated_at.spec_lt(now) {
            now
        } else {
            m.updated_at
        },
    }
}

impl TodoModelUpdate {
    /// Lays `update` over `existing`: fields present in the update override,
    /// absent fields retain the existing values.
    pub fn merge(existing: TodoModel, update: UpdateTodoRequest) -> (r: TodoModelUpdate)
        ensures
            r@ == merged_update(existing@, update@),
    {
        TodoModelUpdate {
            subject: match update.subject {
                Some(s) => s,
                None => existing.subject,
            },
            description: match update.description {
                Some(s) => s,
                None => existing.description,
            },
            is_done: match update.is_done {
                Some(b) => b,
                None => existing.is_done,
            },
            due_date: match update.due_date {
                Some(d) => d,
                None => existing.due_date,
            },
        }
    }
}

/// An update changes exactly the fields present in the request: each present
/// field takes the requested value, each absent field keeps the record's
/// value, and the identifier and creation time are never touched. The update
/// time alone moves on its own, forward to the write time when it would
/// otherwise lie in its past.
pub proof fn lemma_update_changes_exactly_requested_fields(
    m: TodoModelView,
    u: UpdateTodoRequestView,
    now: Timestamp,
)
    ensures
        ({
            let after = updated_model(m, merged_update(m, u), now);
            &&& after.subject == if u.subject is Some { u.subject->0 } else { m.subject }
            &&& after.description == if u.description is Some { u.description->0 } else { m.description }
            &&& after.is_done == if u.is_done is Some { u.is_done->0 } else { m.is_done }
            &&& after.due_date == if u.due_date is Some { u.due_date->0 } else { m.due_date }
            &&& after.id == m.id
            &&& after.created_at == m.created_at
            &&& after.updated_at == if m.updated_at.spec_lt(now) { now } else { m.updated_at }
        }),
{
}

} // verus!
