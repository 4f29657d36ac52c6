//! Identifiers for todos.
//!
//! A [`TodoId`] is the 128-bit value of a ULID: a time-prefixed, sortable
//! identifier. The Crockford base32 text form — minting a fresh value,
//! printing the canonical 26-character string, reading text back — is the
//! `ulid` crate's work, behind trusted wrappers; the service's decisions are
//! made on the plain 128-bit value.

use vstd::prelude::*;

verus! {

/// A todo's identifier: the 128 bits of a ULID.
#[derive(Clone, Copy, PartialEq, Eq, Structural, Debug)]
pub struct TodoId {
    pub value: u128,
}

/// Why a piece of text was not accepted as an identifier. The offending
/// text is carried along for the error report.
#[derive(Debug)]
pub enum ParseError {
    InvalidUlid(String),
    InvalidDatetime(String),
}

/// The canonical text form of an identifier: 26 characters of Crockford
/// base32, as the `ulid` crate prints it.
pub uninterp spec fn ulid_string_of(value: u128) -> Seq<char>;

/// What reading identifier text yields: the 128-bit value for well-formed
/// text, nothing otherwise. The exact grammar is the `ulid` crate's.
pub uninterp spec fn ulid_parse_of(s: Seq<char>) -> Option<u128>;

/// Mints a fresh identifier.
///
/// Relies on `ulid::Ulid::generate`: the value combines the current time
/// with random bits, so nothing is assumed of it.
#[verifier::external_body]
pub(crate) fn ulid_generate() -> (r: TodoId) {
    TodoId { value: u128::from(ulid::Ulid::generate()) }
}

/// Prints the canonical text of an identifier.
///
/// Relies on `ulid::Ulid::to_string`: a 26-character Crockford base32
/// encoding of the value, which `ulid::Ulid::from_string` reads back to
/// the same value.
#[verifier::external_body]
pub(crate) fn ulid_to_string(id: &TodoId) -> (r: String)
    ensures
        r@ == ulid_string_of(id.value),
        r@.len() == 26,
        ulid_parse_of(r@) == Some(id.value),
{
    ulid::Ulid(id.value).to_string()
}

/// Reads identifier text.
///
/// Relies on `ulid::Ulid::from_string`: well-formed Crockford base32 text
/// of the right length decodes to a value, anything else is rejected.
#[verifier::external_body]
pub(crate) fn ulid_from_string(text: &str) -> (r: Option<TodoId>)
    ensures
        match r {
            Some(id) => ulid_parse_of(text@) == Some(id.value),
            None => ulid_parse_of(text@) is None,
        },
{
    ulid::Ulid::from_string(text).ok().map(|u| TodoId { value: u128::from(u) })
}

/// A source of identifiers, injected into the service so that tests can
/// pin the minted value.
pub trait IdGenerator: Sized {
    /// A deterministic generator mints one fixed identifier; the production
    /// generator pins nothing.
    spec fn fixed_id(&self) -> Option<TodoId>;

    /// Mints an identifier for a new todo.
    fn generate(&self) -> (r: TodoId)
        ensures
            self.fixed_id() matches Some(id) ==> r == id,
    ;

    /// Reads an identifier from text, rejecting anything that is not a
    /// well-formed ULID.
    fn parse(&self, id: &str) -> (r: Result<TodoId, ParseError>)
        ensures
            match r {
                Ok(t) => ulid_parse_of(id@) == Some(t.value),
                Err(e) => ulid_parse_of(id@) is None && (e matches ParseError::InvalidUlid(s)
                    && s@ == id@),
            },
    ;

    /// Prints the canonical text of an identifier, the inverse of `parse`
    /// on such text.
    fn to_string(&self, id: &TodoId) -> (r: String)
        ensures
            r@ == ulid_string_of(id.value),
            ulid_parse_of(r@) == Some(id.value),
    ;
}

/// The production generator, backed by the `ulid` crate.
#[derive(Clone, Copy)]
pub struct UlidGenerator;

impl UlidGenerator {
    pub fn new() -> (r: Self)
        ensures
            r.fixed_id() is None,
    {
        UlidGenerator {}
    }
}

impl IdGenerator for UlidGenerator {
    open spec fn fixed_id(&self) -> Option<TodoId> {
        None
    }

    fn generate(&self) -> (r: TodoId)
        ensures
            self.fixed_id() matches Some(id) ==> r == id,
    {
        ulid_generate()
    }

    fn parse(&self, id: &str) -> (r: Result<TodoId, ParseError>)
        ensures
            match r {
                Ok(t) => ulid_parse_of(id@) == Some(t.value),
                Err(e) => ulid_parse_of(id@) is None && (e matches ParseError::InvalidUlid(s)
                    && s@ == id@),
            },
    {
        match ulid_from_string(id) {
            Some(t) => Ok(t),
            None => Err(ParseError::InvalidUlid(id.to_owned())),
        }
    }

    fn to_string(&self, id: &TodoId) -> (r: String)
        ensures
            r@ == ulid_string_of(id.value),
            ulid_parse_of(r@) == Some(id.value),
    {
        ulid_to_string(id)
    }
}

/// A deterministic generator for tests: always mints the identifier it was
/// built from. Text is still read and printed the real way.
pub struct FixedIdGenerator {
    value: TodoId,
}

impl FixedIdGenerator {
    pub fn new(value: TodoId) -> (r: Self)
        ensures
            r.fixed_id() == Some(value),
    {
        FixedIdGenerator { value }
    }
}

impl IdGenerator for FixedIdGenerator {
    closed spec fn fixed_id(&self) -> Option<TodoId> {
        Some(self.value)
    }

    fn generate(&self) -> (r: TodoId)
        ensures
            self.fixed_id() matches Some(id) ==> r == id,
    {
        self.value
    }

    fn parse(&self, id: &str) -> (r: Result<TodoId, ParseError>)
        ensures
            match r {
                Ok(t) => ulid_parse_of(id@) == Some(t.value),
                Err(e) => ulid_parse_of(id@) is None && (e matches ParseError::InvalidUlid(s)
                    && s@ == id@),
            },
    {
        match ulid_from_string(id) {
            Some(t) => Ok(t),
            None => Err(ParseError::InvalidUlid(id.to_owned())),
        }
    }

    fn to_string(&self, id: &TodoId) -> (r: String)
        ensures
            r@ == ulid_string_of(id.value),
            ulid_parse_of(r@) == Some(id.value),
    {
        ulid_to_string(id)
    }
}

/// Printing an identifier and reading the text back yields the original
/// identifier: the canonical text form loses nothing.
pub fn reparse_canonical<G: IdGenerator>(generator: &G, id: TodoId) -> (r: TodoId)
    ensures
        r == id,
{
    let text = generator.to_string(&id);
    match generator.parse(text.as_str()) {
        Ok(back) => back,
        Err(_) => id,  // contradicted by the contracts above; never reached
    }
}

} // verus!
