//! The error taxonomy and its mapping to transport-level problems.
//!
//! The repository surfaces [`RepositoryError`]; the service translates it
//! into [`ApplicationError`], the only error the transport layer understands.
//! An application error maps to an HTTP status code and a [`Problem`] body;
//! server-side detail is never echoed to the caller.

use vstd::prelude::*;
use vstd::string::StringExecFns;

use crate::id::ParseError;

verus! {

/// The structured body returned on a non-2xx response.
#[derive(Debug)]
pub struct Problem {
    pub code: String,
    pub issues: Vec<String>,
}

impl Problem {
    pub fn new(code: String, issues: Vec<String>) -> (r: Self)
        ensures
            r.code == code,
            r.issues == issues,
    {
        Problem { code, issues }
    }
}

/// What the use-case layer can report: a client sent bad data, something
/// went wrong on our side, or the resource does not exist (the offending or
/// missing identifier text rides along).
#[derive(Debug)]
pub enum ApplicationError {
    ValidationError(Vec<String>),
    ServerError(Vec<String>),
    NotFound(String),
}

/// What the persistence layer can report: the store was unreachable, it
/// rejected a query, or a record was absent.
#[derive(Debug)]
pub enum RepositoryError {
    Connection(String),
    Query(String),
    NotFound(String),
}

impl ApplicationError {
    /// How a repository failure reads at the application layer: an absent
    /// record stays "not found", everything else is a server error whose
    /// detail is kept for the log.
    pub fn of_repository(e: RepositoryError) -> (r: ApplicationError)
        ensures
            match e {
                RepositoryError::Connection(m) => (r matches ApplicationError::ServerError(v)
                    && v.deep_view() =~= seq![m@]),
                RepositoryError::Query(m) => (r matches ApplicationError::ServerError(v)
                    && v.deep_view() =~= seq![m@]),
                RepositoryError::NotFound(id) => (r matches ApplicationError::NotFound(s)
                    && s@ == id@),
            },
    {
        match e {
            RepositoryError::Connection(m) => {
                let mut issues: Vec<String> = Vec::new();
                issues.push(m);
                ApplicationError::ServerError(issues)
            },
            RepositoryError::Query(m) => {
                let mut issues: Vec<String> = Vec::new();
                issues.push(m);
                ApplicationError::ServerError(issues)
            },
            RepositoryError::NotFound(id) => ApplicationError::NotFound(id),
        }
    }

    /// How a rejected identifier or date reads at the application layer: a
    /// malformed identifier is reported as "not found", on purpose — to a
    /// caller it looks exactly like a missing resource; a malformed date is
    /// the client's mistake.
    pub fn of_parse(e: ParseError) -> (r: ApplicationError)
        ensures
            match e {
                ParseError::InvalidUlid(s) => (r matches ApplicationError::NotFound(t) && t@
                    == s@),
                ParseError::InvalidDatetime(s) => (r matches ApplicationError::ValidationError(v)
                    && v.deep_view() =~= seq![s@]),
            },
    {
        match e {
            ParseError::InvalidUlid(s) => ApplicationError::NotFound(s),
            ParseError::InvalidDatetime(s) => {
                let mut issues: Vec<String> = Vec::new();
                issues.push(s);
                ApplicationError::ValidationError(issues)
            },
        }
    }

    /// The HTTP status each error kind answers with.
    pub open spec fn spec_status_code(self) -> u16 {
        match self {
            ApplicationError::ValidationError(_) => 400,
            ApplicationError::ServerError(_) => 500,
            ApplicationError::NotFound(_) => 404,
        }
    }

    /// Bad client data is a 400, an absent resource a 404, our own failure
    /// a 500.
    pub fn status_code(&self) -> (r: u16)
        ensures
            r == self.spec_status_code(),
    {
        match self {
            ApplicationError::ValidationError(_) => 400,
            ApplicationError::ServerError(_) => 500,
            ApplicationError::NotFound(_) => 404,
        }
    }

    /// The problem body each error kind answers with. Validation issues are
    /// echoed to the caller; server-side detail is replaced by a generic
    /// message; an absent resource names the identifier that was asked for.
    pub fn to_problem(&self) -> (r: Problem)
        ensures
            match *self {
                ApplicationError::ValidationError(ref v) => r.code@ == "VALIDATION_ERROR"@
                    && r.issues.deep_view() =~= v.deep_view(),
                ApplicationError::ServerError(_) => r.code@ == "SERVER_ERROR"@
                    && r.issues.deep_view() =~= seq!["This is on us, we will take care of it."@],
                ApplicationError::NotFound(ref id) => r.code@ == "RESOURCE_NOT_FOUND"@
                    && r.issues.deep_view() =~= seq![
                    "resource with id "@ + id@ + " does not exist!"@,
                ],
            },
    {
        match self {
            ApplicationError::ValidationError(issues) => Problem {
                code: "VALIDATION_ERROR".to_owned(),
                issues: clone_strings(issues),
            },
            ApplicationError::ServerError(_) => {
                let mut issues: Vec<String> = Vec::new();
                issues.push("This is on us, we will take care of it.".to_owned());
                Problem { code: "SERVER_ERROR".to_owned(), issues }
            },
            ApplicationError::NotFound(id) => {
                let mut message = "resource with id ".to_owned();
                message.append(id.as_str());
                message.append(" does not exist!");
                let mut issues: Vec<String> = Vec::new();
                issues.push(message);
                Problem { code: "RESOURCE_NOT_FOUND".to_owned(), issues }
            },
        }
    }
}

/// A copy of a list of messages, kept word for word.
fn clone_strings(v: &Vec<String>) -> (r: Vec<String>)
    ensures
        r.deep_view() =~= v.deep_view(),
{
    let mut r: Vec<String> = Vec::new();
    let mut i: usize = 0;
    while i < v.len()
        invariant
            i <= v.len(),
            r@.len() == i,
            forall|j: int| 0 <= j < i ==> #[trigger] r@[j]@ == v@[j]@,
        decreases v.len() - i,
    {
        r.push(v[i].clone());
        i = i + 1;
    }
    proof {
        assert(r.deep_view() =~= v.deep_view());
    }
    r
}

} // verus!
