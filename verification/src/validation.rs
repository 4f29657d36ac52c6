//! Request validation: what a client sends is checked and shaped here,
//! before the service is reached. A failing request is answered with a
//! validation error listing every violated constraint.

use vstd::prelude::*;

use crate::domain::{CreateTodoRequest, SearchTodoRequest, UpdateTodoRequest};
use crate::error::ApplicationError;
use crate::id::{ulid_from_string, ulid_parse_of, ParseError, TodoId};
use crate::time::{parse_rfc3339, rfc3339_parse_of, Timestamp};

verus! {

/// A value that failed validation, carried with the offending text.
#[derive(Debug)]
pub enum ValidationError {
    InvalidUlid(String),
}

/// Accepts exactly the well-formed identifier texts.
pub fn validate_ulid(id: String) -> (r: Result<TodoId, ValidationError>)
    ensures
        match r {
            Ok(t) => ulid_parse_of(id@) == Some(t.value),
            Err(e) => ulid_parse_of(id@) is None && (e matches ValidationError::InvalidUlid(s)
                && s@ == id@),
        },
{
    match ulid_from_string(id.as_str()) {
        Some(t) => Ok(t),
        None => Err(ValidationError::InvalidUlid(id)),
    }
}

/// Accepts exactly the well-formed RFC 3339 datetime texts.
pub fn validate_datetime_from_string(datetime: String) -> (r: Result<Timestamp, ParseError>)
    ensures
        match r {
            Ok(t) => rfc3339_parse_of(datetime@) == Some((t.secs, t.nanos)) && t.wf(),
            Err(e) => rfc3339_parse_of(datetime@) is None && (
            e matches ParseError::InvalidDatetime(s) && s@ == datetime@),
        },
{
    match parse_rfc3339(datetime.as_str()) {
        Some(t) => Ok(t),
        None => Err(ParseError::InvalidDatetime(datetime)),
    }
}

/// Shapes a creation request: the subject and the description must be
/// non-empty, the due date well-formed RFC 3339 text. Every violated
/// constraint is reported.
pub fn parse_create_request(subject: String, description: String, due_date: String) -> (r: Result<
    CreateTodoRequest,
    ApplicationError,
>)
    ensures
        r is Ok <==> (subject@.len() > 0 && description@.len() > 0 && rfc3339_parse_of(
            due_date@,
        ) is Some),
        r matches Ok(req) ==> (req.subject@ == subject@ && req.description@ == description@
            && rfc3339_parse_of(due_date@) == Some((req.due_date.secs, req.due_date.nanos))
            && req.wf()),
        r matches Err(e) ==> (e matches ApplicationError::ValidationError(issues) && issues@.len()
            == (if subject@.len() == 0 {
            1int
        } else {
            0int
        }) + (if description@.len() == 0 {
            1int
        } else {
            0int
        }) + (if rfc3339_parse_of(due_date@) is None {
            1int
        } else {
            0int
        })),
{
    let mut issues: Vec<String> = Vec::new();
    if subject.as_str().is_empty() {
        issues.push("subject: length must be at least 1".to_owned());
    }
    if description.as_str().is_empty() {
        issues.push("description: length must be at least 1".to_owned());
    }
    let parsed = parse_rfc3339(due_date.as_str());
    if parsed.is_none() {
        issues.push("dueDate: must be a valid RFC 3339 datetime".to_owned());
    }
    if issues.len() > 0 {
        return Err(ApplicationError::ValidationError(issues));
    }
    match parsed {
        Some(d) => Ok(CreateTodoRequest { subject, description, due_date: d }),
        None => {
            proof {
                assert(false);
            }
            Err(ApplicationError::ValidationError(issues))
        },
    }
}

/// Shapes an update request: every field optional; a present due date must
/// be well-formed RFC 3339 text.
pub fn parse_update_request(
    subject: Option<String>,
    description: Option<String>,
    is_done: Option<bool>,
    due_date: Option<String>,
) -> (r: Result<UpdateTodoRequest, ApplicationError>)
    ensures
        r is Ok <==> (due_date matches Some(d) ==> rfc3339_parse_of(d@) is Some),
        r matches Ok(req) ==> ({
            &&& req@.subject == (match subject {
                Some(s) => Some(s@),
                None => None,
            })
            &&& req@.description == (match description {
                Some(s) => Some(s@),
                None => None,
            })
            &&& req@.is_done == is_done
            &&& (match due_date {
                Some(d) => (req@.due_date matches Some(t) && rfc3339_parse_of(d@) == Some(
                    (t.secs, t.nanos),
                )),
                None => req@.due_date is None,
            })
        }),
        r matches Err(e) ==> (e matches ApplicationError::ValidationError(issues) && issues@.len()
            == 1),
{
    match due_date {
        None => Ok(UpdateTodoRequest { subject, description, is_done, due_date: None }),
        Some(d) => match parse_rfc3339(d.as_str()) {
            Some(t) => Ok(UpdateTodoRequest { subject, description, is_done, due_date: Some(t) }),
            None => {
                let mut issues: Vec<String> = Vec::new();
                issues.push("dueDate: must be a valid RFC 3339 datetime".to_owned());
                Err(ApplicationError::ValidationError(issues))
            },
        },
    }
}

/// Shapes a search request: the term must be non-empty.
pub fn parse_search_request(q: String) -> (r: Result<SearchTodoRequest, ApplicationError>)
    ensures
        r is Ok <==> q@.len() > 0,
        r matches Ok(req) ==> req.q@ == q@,
        r matches Err(e) ==> (e matches ApplicationError::ValidationError(issues) && issues@.len()
            == 1),
{
    if q.as_str().is_empty() {
        let mut issues: Vec<String> = Vec::new();
        issues.push("q: is required!".to_owned());
        Err(ApplicationError::ValidationError(issues))
    } else {
        Ok(SearchTodoRequest { q })
    }
}

} // verus!
