//! Timestamps and clocks.
//!
//! A [`Timestamp`] is an instant in UTC, kept as whole seconds since the Unix
//! epoch together with the nanoseconds within that second. The calendar
//! arithmetic itself (reading RFC 3339 text, asking for the wall clock) is
//! done by the `chrono` crate behind trusted wrappers; everything the service
//! decides about timestamps is decided on these plain fields.

use vstd::prelude::*;

verus! {

/// Nanoseconds run from 0 up to (not including) two billion: the extra
/// second of headroom is how `chrono` represents a leap second.
pub const MAX_NANOS: u32 = 2_000_000_000;

/// An instant in UTC: seconds since the Unix epoch, plus nanoseconds
/// within the second.
#[derive(Clone, Copy, PartialEq, Eq, Structural, Debug)]
pub struct Timestamp {
    pub secs: i64,
    pub nanos: u32,
}

impl Timestamp {
    /// The nanosecond field stays within a single (possibly leap) second.
    pub open spec fn wf(self) -> bool {
        self.nanos < MAX_NANOS
    }

    /// Strict chronological order: by seconds, then by nanoseconds.
    pub open spec fn spec_lt(self, other: Timestamp) -> bool {
        self.secs < other.secs || (self.secs == other.secs && self.nanos < other.nanos)
    }

    /// Does this instant come strictly before `other`?
    pub fn is_before(&self, other: &Timestamp) -> (r: bool)
        ensures
            r == self.spec_lt(*other),
    {
        self.secs < other.secs || (self.secs == other.secs && self.nanos < other.nanos)
    }
}

/// What reading RFC 3339 text yields: seconds and nanoseconds for well-formed
/// text, nothing otherwise. The exact shape of the grammar is `chrono`'s.
pub uninterp spec fn rfc3339_parse_of(s: Seq<char>) -> Option<(i64, u32)>;

/// Reads a timestamp from RFC 3339 text, such as `2023-11-04T15:32:34.205052Z`.
///
/// Relies on `chrono::DateTime::parse_from_rfc3339` to accept exactly the
/// well-formed RFC 3339 strings, and on `chrono`'s documented bound on
/// `timestamp_subsec_nanos` (below 2,000,000,000; values above a billion
/// encode a leap second).
#[verifier::external_body]
pub fn parse_rfc3339(s: &str) -> (r: Option<Timestamp>)
    ensures
        match r {
            Some(t) => rfc3339_parse_of(s@) == Some((t.secs, t.nanos)) && t.wf(),
            None => rfc3339_parse_of(s@) is None,
        },
{
    chrono::DateTime::parse_from_rfc3339(s).ok().map(|d| Timestamp {
        secs: d.timestamp(),
        nanos: d.timestamp_subsec_nanos(),
    })
}

/// Reads the wall clock.
///
/// Relies on `chrono::Utc::now`; nothing is assumed of the value beyond the
/// documented bound on `timestamp_subsec_nanos`.
#[verifier::external_body]
fn system_now() -> (r: Timestamp)
    ensures
        r.wf(),
{
    let now = chrono::Utc::now();
    Timestamp { secs: now.timestamp(), nanos: now.timestamp_subsec_nanos() }
}

/// A source of the current time, injected into the service so that tests can
/// freeze it.
pub trait Clock: Sized {
    /// A deterministic clock answers with one fixed instant; the system
    /// clock pins nothing.
    spec fn fixed_time(&self) -> Option<Timestamp>;

    /// The current instant.
    fn now(&self) -> (r: Timestamp)
        ensures
            r.wf(),
            self.fixed_time() matches Some(t) ==> r == t,
    ;
}

/// The production clock: asks the operating system.
pub struct SystemClock;

impl SystemClock {
    pub fn new() -> (r: Self)
        ensures
            r.fixed_time() is None,
    {
        SystemClock {}
    }
}

impl Clock for SystemClock {
    open spec fn fixed_time(&self) -> Option<Timestamp> {
        None
    }

    fn now(&self) -> (r: Timestamp)
        ensures
            r.wf(),
            self.fixed_time() matches Some(t) ==> r == t,
    {
        system_now()
    }
}

/// A deterministic clock for tests: always answers with the instant it was
/// built from.
pub struct FixedClock {
    value: Timestamp,
}

impl FixedClock {
    #[verifier::type_invariant]
    spec fn type_wf(self) -> bool {
        self.value.wf()
    }

    pub fn new(value: Timestamp) -> (r: Self)
        requires
            value.wf(),
        ensures
            r.fixed_time() == Some(value),
    {
        FixedClock { value }
    }
}

impl Clock for FixedClock {
    closed spec fn fixed_time(&self) -> Option<Timestamp> {
        Some(self.value)
    }

    fn now(&self) -> (r: Timestamp)
        ensures
            r.wf(),
            self.fixed_time() matches Some(t) ==> r == t,
    {
        proof {
            use_type_invariant(&*self);
        }
        self.value
    }
}

} // verus!
