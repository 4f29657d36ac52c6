//! Persistence for todos.
//!
//! [`TodoRepository`] is the contract every store must meet: point operations
//! fail with `NotFound` exactly when the record is absent, writes replace
//! exactly what they say, and search returns the matching records with
//! subject matches ranked above description-only matches. A store is modelled
//! as the sequence of its records, in insertion order, with pairwise distinct
//! identifiers.
//!
//! [`MemoryTodoRepository`] keeps the records in memory and proves the
//! contract; a remote store can implement the same trait outside the
//! verified core.

use vstd::prelude::*;

use crate::domain::{model_of, updated_model, Todo, TodoModel, TodoModelUpdate, TodoModelView};
use crate::error::RepositoryError;
use crate::id::{ulid_parse_of, ulid_string_of, ulid_to_string, TodoId};
use crate::text::{contains_seq, contains_text};
use crate::time::Timestamp;

verus! {

/// The stored records, each read as its mathematical shape.
pub open spec fn model_views(models: Seq<TodoModel>) -> Seq<TodoModelView> {
    models.map_values(|m: TodoModel| m@)
}

/// Some record in the store carries this identifier text.
pub open spec fn store_contains_id(store: Seq<TodoModelView>, id: Seq<char>) -> bool {
    exists|i: int| 0 <= i < store.len() && store[i].id == id
}

/// The position of the record carrying this identifier text; meaningful
/// when the store contains it and identifiers are unique.
pub open spec fn store_index_of(store: Seq<TodoModelView>, id: Seq<char>) -> int {
    choose|i: int| 0 <= i < store.len() && store[i].id == id
}

/// The record carrying this identifier text.
pub open spec fn store_get(store: Seq<TodoModelView>, id: Seq<char>) -> TodoModelView {
    store[store_index_of(store, id)]
}

/// No two records carry the same identifier text.
pub open spec fn unique_ids(store: Seq<TodoModelView>) -> bool {
    forall|i: int, j: int| 0 <= i < j < store.len() ==> store[i].id != store[j].id
}

/// The record's subject contains the search term.
pub open spec fn subject_matches(m: TodoModelView, q: Seq<char>) -> bool {
    contains_seq(m.subject, q)
}

/// Only the record's description contains the search term.
pub open spec fn description_only_matches(m: TodoModelView, q: Seq<char>) -> bool {
    !contains_seq(m.subject, q) && contains_seq(m.description, q)
}

/// The record's subject or description contains the search term.
pub open spec fn matches_query(m: TodoModelView, q: Seq<char>) -> bool {
    contains_seq(m.subject, q) || contains_seq(m.description, q)
}

/// The subject-match test, as a predicate over records.
pub open spec fn subject_pred(q: Seq<char>) -> spec_fn(TodoModelView) -> bool {
    |m: TodoModelView| subject_matches(m, q)
}

/// The description-only-match test, as a predicate over records.
pub open spec fn description_only_pred(q: Seq<char>) -> spec_fn(TodoModelView) -> bool {
    |m: TodoModelView| description_only_matches(m, q)
}

/// What a search returns: every record whose subject matches, in store
/// order, followed by every record only whose description matches, in store
/// order — subject matches rank above description matches.
pub open spec fn ranked_matches(store: Seq<TodoModelView>, q: Seq<char>) -> Seq<TodoModelView> {
    store.filter(subject_pred(q)) + store.filter(description_only_pred(q))
}

/// A term that matches no record is answered by the empty sequence.
pub proof fn lemma_search_no_match(store: Seq<TodoModelView>, q: Seq<char>)
    requires
        forall|i: int| 0 <= i < store.len() ==> !matches_query(#[trigger] store[i], q),
    ensures
        ranked_matches(store, q) == Seq::<TodoModelView>::empty(),
{
    store.lemma_all_neg_filter_empty(subject_pred(q));
    store.lemma_all_neg_filter_empty(description_only_pred(q));
    assert(ranked_matches(store, q) =~= Seq::<TodoModelView>::empty());
}

/// Every record a search returns comes from the store: when every stored
/// identifier parses, so does every identifier among the ranked matches.
pub proof fn lemma_ranked_ids_parse(store: Seq<TodoModelView>, q: Seq<char>)
    requires
        forall|i: int| 0 <= i < store.len() ==> ulid_parse_of(#[trigger] store[i].id) is Some,
    ensures
        forall|i: int|
            0 <= i < ranked_matches(store, q).len() ==> ulid_parse_of(
                #[trigger] ranked_matches(store, q)[i].id,
            ) is Some,
{
    let ranked = ranked_matches(store, q);
    let a = store.filter(subject_pred(q));
    let b = store.filter(description_only_pred(q));
    assert forall|i: int| 0 <= i < ranked.len() implies ulid_parse_of(
        #[trigger] ranked[i].id,
    ) is Some by {
        let m = ranked[i];
        if i < a.len() {
            assert(a[i] == m);
            assert(a.contains(m));
            store.lemma_filter_contains_rev(subject_pred(q), m);
        } else {
            assert(b[i - a.len()] == m);
            assert(b.contains(m));
            store.lemma_filter_contains_rev(description_only_pred(q), m);
        }
        let j = choose|j: int| 0 <= j < store.len() && store[j] == m;
        assert(ulid_parse_of(store[j].id) is Some);
    };
}

/// In a store with unique identifiers, the position of an identifier is the
/// position of any record that carries it.
pub proof fn lemma_store_index_unique(store: Seq<TodoModelView>, id: Seq<char>, i: int)
    requires
        unique_ids(store),
        0 <= i < store.len(),
        store[i].id == id,
    ensures
        store_contains_id(store, id),
        store_index_of(store, id) == i,
{
    assert(store_contains_id(store, id));
    let j = store_index_of(store, id);
    assert(0 <= j < store.len() && store[j].id == id);
    if i < j {
        assert(store[i].id != store[j].id);
    } else if j < i {
        assert(store[j].id != store[i].id);
    }
}

/// The persistence contract for todos.
///
/// A store is modelled by `store()`: its records in insertion order. Reads
/// leave it alone; a successful create appends; a successful update or
/// delete rewrites or removes exactly the addressed record; any failure
/// leaves the store as it was. Point operations answer `NotFound`, carrying
/// the canonical identifier text, exactly when no record carries that text.
pub trait TodoRepository: Sized {
    /// The records this store holds, in insertion order.
    spec fn store(&self) -> Seq<TodoModelView>;

    /// The store's invariant: identifiers are unique.
    spec fn inv(&self) -> bool;

    /// Whether this store can fail for reasons of its own — transport down,
    /// a rejected query. The in-memory store cannot: its only failures are
    /// `NotFound` for an absent record and a refused duplicate insert. A
    /// remote store can, and promises success on nothing.
    spec fn infallible(&self) -> bool;

    /// Identifiers are indeed unique in a well-formed store.
    proof fn inv_implies_unique(&self)
        requires
            self.inv(),
        ensures
            unique_ids(self.store()),
    ;

    /// Inserts a new todo and returns the stored record. A store that cannot
    /// fail on its own accepts every fresh identifier.
    fn create_todo(&mut self, todo: Todo) -> (r: Result<TodoModel, RepositoryError>)
        requires
            old(self).inv(),
        ensures
            final(self).inv(),
            final(self).infallible() == old(self).infallible(),
            r matches Ok(m) ==> (m@ == model_of(todo@) && ulid_parse_of(m@.id) == Some(
                todo.id.value,
            ) && final(self).store() == old(self).store().push(model_of(todo@))),
            r is Err ==> final(self).store() == old(self).store(),
            !(r matches Err(RepositoryError::NotFound(_))),
            (old(self).infallible() && !store_contains_id(
                old(self).store(),
                ulid_string_of(todo.id.value),
            )) ==> r is Ok,
    ;

    /// Returns all records, in insertion order. A store that cannot fail on
    /// its own always answers.
    fn get_todos(&self) -> (r: Result<Vec<TodoModel>, RepositoryError>)
        requires
            self.inv(),
        ensures
            r matches Ok(list) ==> model_views(list@) == self.store(),
            !(r matches Err(RepositoryError::NotFound(_))),
            self.infallible() ==> r is Ok,
    ;

    /// Returns the record with this identifier; `NotFound` exactly when
    /// there is none. A store that cannot fail on its own hands over every
    /// record it holds.
    fn get_todo_by_id(&self, id: &TodoId) -> (r: Result<TodoModel, RepositoryError>)
        requires
            self.inv(),
        ensures
            ulid_parse_of(ulid_string_of(id.value)) == Some(id.value),
            r matches Ok(m) ==> (store_contains_id(self.store(), ulid_string_of(id.value))
                && m@ == store_get(self.store(), ulid_string_of(id.value))),
            !store_contains_id(self.store(), ulid_string_of(id.value)) ==> (r matches Err(
                RepositoryError::NotFound(s),
            ) && s@ == ulid_string_of(id.value)),
            r matches Err(RepositoryError::NotFound(s)) ==> (s@ == ulid_string_of(id.value)
                && !store_contains_id(self.store(), ulid_string_of(id.value))),
            (self.infallible() && store_contains_id(self.store(), ulid_string_of(id.value)))
                ==> r is Ok,
    ;

    /// Writes the merged fields over the record with this identifier at time
    /// `now` and returns the rewritten record; `NotFound` exactly when there
    /// is none. The record's update time never regresses: it moves to `now`
    /// unless it already lies at or past it.
    fn update_todo(&mut self, id: &TodoId, updated_todo: TodoModelUpdate, now: Timestamp) -> (r:
        Result<TodoModel, RepositoryError>)
        requires
            old(self).inv(),
        ensures
            final(self).inv(),
            final(self).infallible() == old(self).infallible(),
            ulid_parse_of(ulid_string_of(id.value)) == Some(id.value),
            (old(self).infallible() && store_contains_id(
                old(self).store(),
                ulid_string_of(id.value),
            )) ==> r is Ok,
            r matches Ok(m) ==> (store_contains_id(old(self).store(), ulid_string_of(id.value))
                && m@ == updated_model(
                store_get(old(self).store(), ulid_string_of(id.value)),
                updated_todo@,
                now,
            ) && final(self).store() == old(self).store().update(
                store_index_of(old(self).store(), ulid_string_of(id.value)),
                m@,
            )),
            r is Err ==> final(self).store() == old(self).store(),
            !store_contains_id(old(self).store(), ulid_string_of(id.value)) ==> (r matches Err(
                RepositoryError::NotFound(s),
            ) && s@ == ulid_string_of(id.value)),
            r matches Err(RepositoryError::NotFound(s)) ==> (s@ == ulid_string_of(id.value)
                && !store_contains_id(old(self).store(), ulid_string_of(id.value))),
    ;

    /// Removes the record with this identifier and returns it; `NotFound`
    /// exactly when there is none.
    fn delete_todo(&mut self, id: &TodoId) -> (r: Result<TodoModel, RepositoryError>)
        requires
            old(self).inv(),
        ensures
            final(self).inv(),
            final(self).infallible() == old(self).infallible(),
            ulid_parse_of(ulid_string_of(id.value)) == Some(id.value),
            (old(self).infallible() && store_contains_id(
                old(self).store(),
                ulid_string_of(id.value),
            )) ==> r is Ok,
            r matches Ok(m) ==> (store_contains_id(old(self).store(), ulid_string_of(id.value))
                && m@ == store_get(old(self).store(), ulid_string_of(id.value))
                && final(self).store() == old(self).store().remove(
                store_index_of(old(self).store(), ulid_string_of(id.value)),
            )),
            r is Err ==> final(self).store() == old(self).store(),
            !store_contains_id(old(self).store(), ulid_string_of(id.value)) ==> (r matches Err(
                RepositoryError::NotFound(s),
            ) && s@ == ulid_string_of(id.value)),
            r matches Err(RepositoryError::NotFound(s)) ==> (s@ == ulid_string_of(id.value)
                && !store_contains_id(old(self).store(), ulid_string_of(id.value))),
    ;

    /// Full-text search over subjects and descriptions: the matching
    /// records, subject matches ranked first. A term that matches nothing is
    /// an empty answer, never `NotFound`; the in-memory store never fails at
    /// all.
    fn search_todo(&self, q: &str) -> (r: Result<Vec<TodoModel>, RepositoryError>)
        requires
            self.inv(),
        ensures
            r matches Ok(list) ==> model_views(list@) == ranked_matches(self.store(), q@),
            !(r matches Err(RepositoryError::NotFound(_))),
            self.infallible() ==> r is Ok,
    ;
}

/// An in-memory store: the records in a vector, in insertion order.
pub struct MemoryTodoRepository {
    todos: Vec<TodoModel>,
}

impl MemoryTodoRepository {
    /// An empty store.
    pub fn new() -> (r: Self)
        ensures
            r.inv(),
            r.store() == Seq::<TodoModelView>::empty(),
    {
        let r = MemoryTodoRepository { todos: Vec::new() };
        proof {
            assert(r.store() =~= Seq::<TodoModelView>::empty());
        }
        r
    }

    /// The position of the record carrying this identifier text, if any.
    fn find_index(&self, id_text: &String) -> (r: Option<usize>)
        ensures
            match r {
                Some(i) => i < self.todos@.len() && self.todos@[i as int]@.id == id_text@,
                None => !store_contains_id(model_views(self.todos@), id_text@),
            },
    {
        let mut i: usize = 0;
        while i < self.todos.len()
            invariant
                i <= self.todos@.len(),
                forall|j: int| 0 <= j < i ==> #[trigger] self.todos@[j]@.id != id_text@,
            decreases self.todos@.len() - i,
        {
            if self.todos[i].id == *id_text {
                return Some(i);
            }
            i = i + 1;
        }
        None
    }
}

impl TodoRepository for MemoryTodoRepository {
    closed spec fn store(&self) -> Seq<TodoModelView> {
        model_views(self.todos@)
    }

    closed spec fn inv(&self) -> bool {
        unique_ids(model_views(self.todos@))
    }

    open spec fn infallible(&self) -> bool {
        true
    }

    proof fn inv_implies_unique(&self) {
    }

    fn create_todo(&mut self, todo: Todo) -> (r: Result<TodoModel, RepositoryError>)
        ensures
            r is Ok <==> !store_contains_id(old(self).store(), ulid_string_of(todo.id.value)),
    {
        let id_text = ulid_to_string(&todo.id);
        match self.find_index(&id_text) {
            Some(i) => {
                proof {
                    let sid = ulid_string_of(todo.id.value);
                    assert(0 <= i < self.store().len() && self.store()[i as int].id == sid);
                    assert(store_contains_id(self.store(), sid));
                }
                return Err(
                    RepositoryError::Query("a todo with this id already exists".to_owned()),
                );
            },
            None => {},
        }
        let model = TodoModel {
            id: id_text,
            subject: todo.subject,
            description: todo.description,
            is_done: todo.is_done,
            due_date: todo.due_date,
            created_at: todo.created_at,
            updated_at: todo.updated_at,
        };
        let stored = model.clone();
        proof {
            assert(model@ == model_of(todo@));
            assert(model_views(self.todos@.push(model)) =~= model_views(self.todos@).push(model@));
        }
        self.todos.push(model);
        Ok(stored)
    }

    fn get_todos(&self) -> (r: Result<Vec<TodoModel>, RepositoryError>)
        ensures
            r is Ok,
    {
        let mut result: Vec<TodoModel> = Vec::new();
        let mut i: usize = 0;
        while i < self.todos.len()
            invariant
                i <= self.todos@.len(),
                result@.len() == i,
                forall|k: int| 0 <= k < i ==> #[trigger] result@[k]@ == self.todos@[k]@,
            decreases self.todos@.len() - i,
        {
            result.push(self.todos[i].clone());
            i = i + 1;
        }
        proof {
            assert(model_views(result@) =~= model_views(self.todos@));
        }
        Ok(result)
    }

    fn get_todo_by_id(&self, id: &TodoId) -> (r: Result<TodoModel, RepositoryError>)
        ensures
            r is Ok <==> store_contains_id(self.store(), ulid_string_of(id.value)),
    {
        let id_text = ulid_to_string(id);
        match self.find_index(&id_text) {
            Some(i) => {
                proof {
                    lemma_store_index_unique(self.store(), id_text@, i as int);
                }
                Ok(self.todos[i].clone())
            },
            None => Err(RepositoryError::NotFound(id_text)),
        }
    }

    fn update_todo(&mut self, id: &TodoId, updated_todo: TodoModelUpdate, now: Timestamp) -> (r:
        Result<TodoModel, RepositoryError>)
        ensures
            r is Ok <==> store_contains_id(old(self).store(), ulid_string_of(id.value)),
    {
        let id_text = ulid_to_string(id);
        match self.find_index(&id_text) {
            Some(i) => {
                proof {
                    lemma_store_index_unique(old(self).store(), id_text@, i as int);
                }
                let old_updated_at = self.todos[i].updated_at;
                let model = TodoModel {
                    id: self.todos[i].id.clone(),
                    subject: updated_todo.subject,
                    description: updated_todo.description,
                    is_done: updated_todo.is_done,
                    due_date: updated_todo.due_date,
                    created_at: self.todos[i].created_at,
                    updated_at: if old_updated_at.is_before(&now) {
                        now
                    } else {
                        old_updated_at
                    },
                };
                let stored = model.clone();
                proof {
                    assert(model_views(self.todos@.update(i as int, model)) =~= model_views(
                        self.todos@,
                    ).update(i as int, model@));
                }
                self.todos[i] = model;
                Ok(stored)
            },
            None => Err(RepositoryError::NotFound(id_text)),
        }
    }

    fn delete_todo(&mut self, id: &TodoId) -> (r: Result<TodoModel, RepositoryError>)
        ensures
            r is Ok <==> store_contains_id(old(self).store(), ulid_string_of(id.value)),
    {
        let id_text = ulid_to_string(id);
        match self.find_index(&id_text) {
            Some(i) => {
                proof {
                    lemma_store_index_unique(old(self).store(), id_text@, i as int);
                    assert(model_views(self.todos@.remove(i as int)) =~= model_views(
                        self.todos@,
                    ).remove(i as int));
                }
                let removed = self.todos.remove(i);
                Ok(removed)
            },
            None => Err(RepositoryError::NotFound(id_text)),
        }
    }

    fn search_todo(&self, q: &str) -> (r: Result<Vec<TodoModel>, RepositoryError>)
        ensures
            r is Ok,
    {
        broadcast use Seq::lemma_filter_push;

        let mut found: Vec<TodoModel> = Vec::new();
        let mut i: usize = 0;
        while i < self.todos.len()
            invariant
                i <= self.todos@.len(),
                model_views(found@) =~= model_views(self.todos@).take(i as int).filter(
                    subject_pred(q@),
                ),
            decreases self.todos@.len() - i,
        {
            proof {
                let views = model_views(self.todos@);
                assert(views.take(i + 1) =~= views.take(i as int).push(views[i as int]));
                views.take(i as int).lemma_filter_push(views[i as int], subject_pred(q@));
            }
            if contains_text(self.todos[i].subject.as_str(), q) {
                found.push(self.todos[i].clone());
                proof {
                    assert(model_views(found@) =~= model_views(self.todos@).take(i + 1).filter(
                        subject_pred(q@),
                    ));
                }
            }
            i = i + 1;
        }
        proof {
            assert(model_views(self.todos@).take(self.todos@.len() as int) =~= model_views(
                self.todos@,
            ));
        }
        let mut j: usize = 0;
        while j < self.todos.len()
            invariant
                j <= self.todos@.len(),
                model_views(found@) =~= model_views(self.todos@).filter(subject_pred(q@))
                    + model_views(self.todos@).take(j as int).filter(description_only_pred(q@)),
            decreases self.todos@.len() - j,
        {
            proof {
                let views = model_views(self.todos@);
                assert(views.take(j + 1) =~= views.take(j as int).push(views[j as int]));
                views.take(j as int).lemma_filter_push(views[j as int], description_only_pred(q@));
            }
            if !contains_text(self.todos[j].subject.as_str(), q) && contains_text(
                self.todos[j].description.as_str(),
                q,
            ) {
                found.push(self.todos[j].clone());
                proof {
                    let views = model_views(self.todos@);
                    let m = views[j as int];
                    let a = views.filter(subject_pred(q@));
                    let b = views.take(j as int).filter(description_only_pred(q@));
                    assert(model_views(found@) =~= (a + b).push(m));
                    assert((a + b).push(m) =~= a + b.push(m));
                    assert(b.push(m) == views.take(j + 1).filter(description_only_pred(q@)));
                }
            }
            j = j + 1;
        }
        proof {
            assert(model_views(self.todos@).take(self.todos@.len() as int) =~= model_views(
                self.todos@,
            ));
        }
        Ok(found)
    }
}

} // verus!
