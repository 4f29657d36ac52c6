//! The use-case layer: orchestration of validation, identifier and time
//! generation, merge-on-update, and error translation.
//!
//! A [`TodoService`] owns a repository, a clock and an identifier generator,
//! all injected. Identifier text from a caller is parsed before any
//! repository call — a malformed identifier is answered like a missing
//! resource. Every record read back from the store has its stored identifier
//! parsed again; a stored identifier that no longer parses is a server-side
//! data-integrity fault, never the caller's.

use vstd::prelude::*;
use vstd::string::StringExecFns;

use crate::domain::{
    merged_update, model_of, todo_of_model, CreateTodoRequest, Todo, TodoModel, TodoModelUpdate,
    TodoModelView, UpdateTodoRequest,
};
use crate::error::ApplicationError;
use crate::id::{ulid_parse_of, ulid_string_of, IdGenerator, ParseError};
use crate::repository::{
    lemma_ranked_ids_parse, ranked_matches, store_contains_id, store_get, store_index_of,
    TodoRepository,
};
use crate::time::Clock;

verus! {

/// The todo use cases, over an injected repository, clock and identifier
/// generator.
pub struct TodoService<R: TodoRepository, C: Clock, G: IdGenerator> {
    pub repository: R,
    pub clock: C,
    pub id_generator: G,
}

impl<R: TodoRepository, C: Clock, G: IdGenerator> TodoService<R, C, G> {
    /// The records the underlying store holds.
    pub open spec fn store(&self) -> Seq<TodoModelView> {
        self.repository.store()
    }

    /// The service is well-formed when its store is.
    pub open spec fn inv(&self) -> bool {
        self.repository.inv()
    }

    pub fn new(repository: R, clock: C, id_generator: G) -> (r: Self)
        ensures
            r.repository == repository,
            r.clock == clock,
            r.id_generator == id_generator,
    {
        TodoService { repository, clock, id_generator }
    }

    /// A fresh domain todo for a creation request: a minted identifier, the
    /// requested fields, not yet done, created and updated right now.
    fn request_to_domain(&self, data: CreateTodoRequest) -> (r: Todo)
        ensures
            r.is_done == false,
            r.created_at == r.updated_at,
            r.created_at.wf(),
            r.subject@ == data.subject@,
            r.description@ == data.description@,
            r.due_date == data.due_date,
            self.clock.fixed_time() matches Some(n) ==> r.created_at == n,
            self.id_generator.fixed_id() matches Some(i) ==> r.id == i,
    {
        let creation_date = self.clock.now();
        Todo {
            id: self.id_generator.generate(),
            subject: data.subject,
            description: data.description,
            is_done: false,
            due_date: data.due_date,
            created_at: creation_date,
            updated_at: creation_date,
        }
    }

    /// Reads a stored record back as a domain todo. A stored identifier that
    /// does not parse is a data-integrity fault: the whole call fails with a
    /// server error.
    fn model_to_domain(&self, model: TodoModel) -> (r: Result<Todo, ApplicationError>)
        ensures
            r matches Ok(t) ==> (ulid_parse_of(model@.id) is Some && t@ == todo_of_model(model@)),
            r matches Err(e) ==> (ulid_parse_of(model@.id) is None && e matches ApplicationError::ServerError(_)),
    {
        match self.id_generator.parse(model.id.as_str()) {
            Ok(id) => Ok(
                Todo {
                    id,
                    subject: model.subject,
                    description: model.description,
                    is_done: model.is_done,
                    due_date: model.due_date,
                    created_at: model.created_at,
                    updated_at: model.updated_at,
                },
            ),
            Err(e) => {
                let text = match e {
                    ParseError::InvalidUlid(s) => s,
                    ParseError::InvalidDatetime(s) => s,
                };
                let mut message = "Unable to parse ".to_owned();
                message.append(text.as_str());
                message.append(" to Ulid");
                let mut issues: Vec<String> = Vec::new();
                issues.push(message);
                Err(ApplicationError::ServerError(issues))
            },
        }
    }

    /// Creates a todo from a request: mints the identifier, stamps creation
    /// and update time with the current instant, stores the record, and
    /// returns it. A fresh todo is never already done.
    pub fn create_todo(&mut self, todo: CreateTodoRequest) -> (r: Result<Todo, ApplicationError>)
        requires
            old(self).inv(),
        ensures
            final(self).inv(),
            final(self).clock == old(self).clock,
            final(self).id_generator == old(self).id_generator,
            final(self).repository.infallible() == old(self).repository.infallible(),
            r matches Ok(t) ==> (t.is_done == false && t.created_at == t.updated_at
                && t.created_at.wf() && t.subject@ == todo.subject@ && t.description@
                == todo.description@ && t.due_date == todo.due_date && (
            old(self).clock.fixed_time() matches Some(n) ==> t.created_at == n) && (
            old(self).id_generator.fixed_id() matches Some(i) ==> t.id == i)
                && ulid_parse_of(ulid_string_of(t.id.value)) == Some(t.id.value)
                && final(self).store() == old(self).store().push(model_of(t@))),
            r is Err ==> final(self).store() == old(self).store(),
            !(r matches Err(ApplicationError::ValidationError(_))),
            !(r matches Err(ApplicationError::NotFound(_))),
            (old(self).repository.infallible() && (
            old(self).id_generator.fixed_id() matches Some(i) && !store_contains_id(
                old(self).store(),
                ulid_string_of(i.value),
            ))) ==> r is Ok,
    {
        let t = self.request_to_domain(todo);
        let ghost tv = t@;
        let model = match self.repository.create_todo(t) {
            Ok(m) => m,
            Err(e) => return Err(ApplicationError::of_repository(e)),
        };
        match self.model_to_domain(model) {
            Ok(result) => {
                proof {
                    assert(result@ == tv);
                }
                Ok(result)
            },
            Err(e) => Err(e),
        }
    }

    /// Returns all todos, in the store's order, each stored record read back
    /// into the domain.
    pub fn get_todos(&self) -> (r: Result<Vec<Todo>, ApplicationError>)
        requires
            self.inv(),
        ensures
            r matches Ok(ts) ==> (ts@.len() == self.store().len() && (forall|i: int|
                0 <= i < self.store().len() ==> ulid_parse_of(
                    #[trigger] self.store()[i].id,
                ) is Some) && (forall|i: int|
                0 <= i < ts@.len() ==> #[trigger] ts@[i]@ == todo_of_model(self.store()[i]))),
            !(r matches Err(ApplicationError::NotFound(_))),
            !(r matches Err(ApplicationError::ValidationError(_))),
            (self.repository.infallible() && (forall|i: int|
                0 <= i < self.store().len() ==> ulid_parse_of(
                    #[trigger] self.store()[i].id,
                ) is Some)) ==> r is Ok,
    {
        let models = match self.repository.get_todos() {
            Ok(m) => m,
            Err(e) => return Err(ApplicationError::of_repository(e)),
        };
        let mut result: Vec<Todo> = Vec::new();
        let mut i: usize = 0;
        while i < models.len()
            invariant
                i <= models@.len(),
                result@.len() == i,
                crate::repository::model_views(models@) == self.store(),
                forall|k: int|
                    0 <= k < i ==> ulid_parse_of(#[trigger] self.store()[k].id) is Some,
                forall|k: int|
                    0 <= k < i ==> #[trigger] result@[k]@ == todo_of_model(self.store()[k]),
            decreases models@.len() - i,
        {
            proof {
                assert(self.store()[i as int] == crate::repository::model_views(models@)[i as int]);
            }
            match self.model_to_domain(models[i].clone()) {
                Ok(t) => result.push(t),
                Err(e) => return Err(e),
            }
            i = i + 1;
        }
        Ok(result)
    }

    /// Returns the todo with this identifier text. Text that is no
    /// identifier, and an identifier no record carries, both read as "not
    /// found" — a malformed identifier is indistinguishable from a missing
    /// resource to the caller.
    pub fn get_todo_by_id(&self, id: &str) -> (r: Result<Todo, ApplicationError>)
        requires
            self.inv(),
        ensures
            ulid_parse_of(id@) is None ==> (r matches Err(ApplicationError::NotFound(s)) && s@
                == id@),
            ulid_parse_of(id@) matches Some(v) ==> (!store_contains_id(
                self.store(),
                ulid_string_of(v),
            ) ==> (r matches Err(ApplicationError::NotFound(s)) && s@ == ulid_string_of(v))),
            r matches Ok(t) ==> (ulid_parse_of(id@) matches Some(v) && store_contains_id(
                self.store(),
                ulid_string_of(v),
            ) && t@ == todo_of_model(store_get(self.store(), ulid_string_of(v)))),
            !(r matches Err(ApplicationError::ValidationError(_))),
            (self.repository.infallible() && (ulid_parse_of(id@) matches Some(v)
                && store_contains_id(self.store(), ulid_string_of(v)))) ==> r is Ok,
    {
        let parsed = match self.id_generator.parse(id) {
            Ok(p) => p,
            Err(e) => return Err(ApplicationError::of_parse(e)),
        };
        let model = match self.repository.get_todo_by_id(&parsed) {
            Ok(m) => m,
            Err(e) => return Err(ApplicationError::of_repository(e)),
        };
        self.model_to_domain(model)
    }

    /// Updates the todo with this identifier text: loads the existing
    /// record, lays the request's present fields over it, writes the merge
    /// back at the current instant, and returns the stored result. Absent
    /// fields keep their values; the identifier and the creation time are
    /// never touched; the update time never regresses.
    pub fn update_todo(&mut self, id: &str, update: UpdateTodoRequest) -> (r: Result<
        Todo,
        ApplicationError,
    >)
        requires
            old(self).inv(),
        ensures
            final(self).inv(),
            final(self).clock == old(self).clock,
            final(self).id_generator == old(self).id_generator,
            final(self).repository.infallible() == old(self).repository.infallible(),
            ulid_parse_of(id@) is None ==> (r matches Err(ApplicationError::NotFound(s)) && s@
                == id@),
            ulid_parse_of(id@) matches Some(v) ==> (!store_contains_id(
                old(self).store(),
                ulid_string_of(v),
            ) ==> (r matches Err(ApplicationError::NotFound(s)) && s@ == ulid_string_of(v))),
            r is Err ==> final(self).store() == old(self).store(),
            (old(self).repository.infallible() && (ulid_parse_of(id@) matches Some(v)
                && store_contains_id(old(self).store(), ulid_string_of(v)))) ==> r is Ok,
            r matches Ok(t) ==> (ulid_parse_of(id@) matches Some(v) && ({
                let sid = ulid_string_of(v);
                let m0 = store_get(old(self).store(), sid);
                let merged = merged_update(m0, update@);
                &&& store_contains_id(old(self).store(), sid)
                &&& t@.id.value == v
                &&& t@.subject == merged.subject
                &&& t@.description == merged.description
                &&& t@.is_done == merged.is_done
                &&& t@.due_date == merged.due_date
                &&& t@.created_at == m0.created_at
                &&& !t@.updated_at.spec_lt(m0.updated_at)
                &&& (old(self).clock.fixed_time() matches Some(f) ==> t@.updated_at == (
                if m0.updated_at.spec_lt(f) {
                    f
                } else {
                    m0.updated_at
                }))
                &&& final(self).store() == old(self).store().update(
                    store_index_of(old(self).store(), sid),
                    model_of(t@),
                )
            })),
            !(r matches Err(ApplicationError::ValidationError(_))),
    {
        let parsed = match self.id_generator.parse(id) {
            Ok(p) => p,
            Err(e) => return Err(ApplicationError::of_parse(e)),
        };
        let existing = match self.repository.get_todo_by_id(&parsed) {
            Ok(m) => m,
            Err(e) => return Err(ApplicationError::of_repository(e)),
        };
        let ghost m0 = existing@;
        let merged = TodoModelUpdate::merge(existing, update);
        let now = self.clock.now();
        let updated = match self.repository.update_todo(&parsed, merged, now) {
            Ok(m) => m,
            Err(e) => return Err(ApplicationError::of_repository(e)),
        };
        match self.model_to_domain(updated) {
            Ok(t) => {
                proof {
                    assert(model_of(t@) == updated@);
                }
                Ok(t)
            },
            Err(e) => Err(e),
        }
    }

    /// Deletes the todo with this identifier text and returns the deleted
    /// record. Malformed and unknown identifiers both read as "not found".
    pub fn delete_todo(&mut self, id: &str) -> (r: Result<Todo, ApplicationError>)
        requires
            old(self).inv(),
        ensures
            final(self).inv(),
            final(self).clock == old(self).clock,
            final(self).id_generator == old(self).id_generator,
            final(self).repository.infallible() == old(self).repository.infallible(),
            ulid_parse_of(id@) is None ==> (r matches Err(ApplicationError::NotFound(s)) && s@
                == id@),
            ulid_parse_of(id@) matches Some(v) ==> (!store_contains_id(
                old(self).store(),
                ulid_string_of(v),
            ) ==> (r matches Err(ApplicationError::NotFound(s)) && s@ == ulid_string_of(v))),
            r is Err ==> final(self).store() == old(self).store(),
            (old(self).repository.infallible() && (ulid_parse_of(id@) matches Some(v)
                && store_contains_id(old(self).store(), ulid_string_of(v)))) ==> r is Ok,
            r matches Ok(t) ==> (ulid_parse_of(id@) matches Some(v) && ({
                let sid = ulid_string_of(v);
                &&& store_contains_id(old(self).store(), sid)
                &&& t@ == todo_of_model(store_get(old(self).store(), sid))
                &&& final(self).store() == old(self).store().remove(
                    store_index_of(old(self).store(), sid),
                )
            })),
            !(r matches Err(ApplicationError::ValidationError(_))),
    {
        let parsed = match self.id_generator.parse(id) {
            Ok(p) => p,
            Err(e) => return Err(ApplicationError::of_parse(e)),
        };
        let removed = match self.repository.delete_todo(&parsed) {
            Ok(m) => m,
            Err(e) => return Err(ApplicationError::of_repository(e)),
        };
        self.model_to_domain(removed)
    }

    /// Searches subjects and descriptions for the term and returns the
    /// matching todos, subject matches ranked above description-only
    /// matches. A term that matches nothing is an empty answer, not a
    /// failure.
    pub fn search_todo(&self, q: &str) -> (r: Result<Vec<Todo>, ApplicationError>)
        requires
            self.inv(),
        ensures
            r matches Ok(ts) ==> ({
                let ranked = ranked_matches(self.store(), q@);
                &&& ts@.len() == ranked.len()
                &&& (forall|i: int|
                    0 <= i < ranked.len() ==> ulid_parse_of(#[trigger] ranked[i].id) is Some)
                &&& (forall|i: int|
                    0 <= i < ts@.len() ==> #[trigger] ts@[i]@ == todo_of_model(ranked[i]))
            }),
            !(r matches Err(ApplicationError::NotFound(_))),
            !(r matches Err(ApplicationError::ValidationError(_))),
            (self.repository.infallible() && (forall|i: int|
                0 <= i < self.store().len() ==> ulid_parse_of(
                    #[trigger] self.store()[i].id,
                ) is Some)) ==> r is Ok,
    {
        proof {
            if forall|i: int|
                0 <= i < self.store().len() ==> ulid_parse_of(#[trigger] self.store()[i].id) is Some {
                lemma_ranked_ids_parse(self.store(), q@);
            }
        }
        let models = match self.repository.search_todo(q) {
            Ok(m) => m,
            Err(e) => return Err(ApplicationError::of_repository(e)),
        };
        let ghost ranked = ranked_matches(self.store(), q@);
        let mut result: Vec<Todo> = Vec::new();
        let mut i: usize = 0;
        while i < models.len()
            invariant
                i <= models@.len(),
                result@.len() == i,
                ranked == ranked_matches(self.store(), q@),
                crate::repository::model_views(models@) == ranked,
                forall|k: int| 0 <= k < i ==> ulid_parse_of(#[trigger] ranked[k].id) is Some,
                forall|k: int| 0 <= k < i ==> #[trigger] result@[k]@ == todo_of_model(ranked[k]),
            decreases models@.len() - i,
        {
            proof {
                if forall|k: int|
                    0 <= k < self.store().len() ==> ulid_parse_of(
                        #[trigger] self.store()[k].id,
                    ) is Some {
                    lemma_ranked_ids_parse(self.store(), q@);
                }
                assert(ranked[i as int] == crate::repository::model_views(models@)[i as int]);
            }
            match self.model_to_domain(models[i].clone()) {
                Ok(t) => result.push(t),
                Err(e) => return Err(e),
            }
            i = i + 1;
        }
        Ok(result)
    }
}

} // verus!



