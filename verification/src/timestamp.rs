//! Instants on the UTC time line.

use vstd::prelude::*;

verus! {

/// An instant in UTC: whole seconds since 1970-01-01T00:00:00Z and the
/// nanoseconds into that second.
///
/// Instants are ordered by their seconds first and their nanoseconds second.
#[derive(Clone, Copy, Debug, PartialEq, Eq, Structural, Hash)]
pub struct Timestamp {
    pub secs: i64,
    pub nanos: u32,
}

impl Timestamp {
    /// Whether `self` is strictly later than `other`.
    pub open spec fn is_after_spec(&self, other: &Timestamp) -> bool {
        self.secs > other.secs || (self.secs == other.secs && self.nanos > other.nanos)
    }

    /// Whether `self` is `other` or earlier.
    pub open spec fn is_at_or_before_spec(&self, other: &Timestamp) -> bool {
        self.secs < other.secs || (self.secs == other.secs && self.nanos <= other.nanos)
    }

    /// The instant `nanos` nanoseconds into second `secs`.
    pub fn new(secs: i64, nanos: u32) -> (t: Self)
        ensures
            t.secs == secs,
            t.nanos == nanos,
    {
        Timestamp { secs, nanos }
    }

    /// Whether `self` is strictly later than `other`.
    #[verifier::when_used_as_spec(is_after_spec)]
    pub fn is_after(&self, other: &Timestamp) -> (after: bool)
        ensures
            after == self.is_after_spec(other),
    {
        self.secs > other.secs || (self.secs == other.secs && self.nanos > other.nanos)
    }

    /// Whether `self` is `other` or earlier.
    #[verifier::when_used_as_spec(is_at_or_before_spec)]
    pub fn is_at_or_before(&self, other: &Timestamp) -> (at_or_before: bool)
        ensures
            at_or_before == self.is_at_or_before_spec(other),
    {
        self.secs < other.secs || (self.secs == other.secs && self.nanos <= other.nanos)
    }
}

/// Of two instants, the first is strictly later than the second or it is at or
/// before it, never both.
pub proof fn law_later_or_not_later(a: Timestamp, b: Timestamp)
    ensures
        a.is_after_spec(&b) <==> !a.is_at_or_before_spec(&b),
{
}

/// `Utc::now` of chrono, read through `DateTime::timestamp` and
/// `DateTime::timestamp_subsec_nanos`: the system clock's distance from the
/// Unix epoch, which chrono takes as a non-negative number of seconds and a
/// fraction below one second. Which instant comes back is not stated, and
/// chrono does not return at all from a clock that is set before the epoch.
/// Believed, not proved.
#[verifier::external_body]
pub(crate) fn current_time() -> (now: Timestamp)
    ensures
        now.secs >= 0,
        now.nanos < 1_000_000_000,
{
    let now = chrono::Utc::now();
    Timestamp { secs: now.timestamp(), nanos: now.timestamp_subsec_nanos() }
}

} // verus!
