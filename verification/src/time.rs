//! Points in time, as the queue records and compares them.

use vstd::prelude::*;

verus! {

/// A point in time: whole seconds since the UNIX epoch and the nanoseconds
/// past that second (above 999 999 999 only during a leap second).
#[derive(Debug, Clone, Copy, PartialEq, Eq, PartialOrd, Ord, Structural)]
pub struct Timestamp {
    pub secs: i64,
    pub nanos: u32,
}

impl Timestamp {
    /// Chronological order: by the second, then by the nanoseconds within it.
    pub open spec fn spec_is_before(self, other: Timestamp) -> bool {
        self.secs < other.secs || (self.secs == other.secs && self.nanos < other.nanos)
    }

    /// Whether `self` lies strictly before `other`.
    pub fn is_before(&self, other: &Timestamp) -> (res: bool)
        ensures
            res == self.spec_is_before(*other),
    {
        self.secs < other.secs || (self.secs == other.secs && self.nanos < other.nanos)
    }
}

/// The current time of the system clock, read through `chrono::Utc::now`,
/// as seconds and nanoseconds since the UNIX epoch. chrono counts from the
/// epoch forward and splits off the nanoseconds below one second. It panics
/// when the system clock reads a time before 1970; this function has no
/// argument, so the clock's reading is its only input.
/// Chronological order is a strict total order: no time lies before
/// itself, it is transitive, and of two different times one lies before
/// the other. A later second comes after any nanoseconds of an earlier one.
pub proof fn lemma_is_before_is_a_strict_total_order(a: Timestamp, b: Timestamp, c: Timestamp)
    ensures
        !a.spec_is_before(a),
        a.spec_is_before(b) && b.spec_is_before(c) ==> a.spec_is_before(c),
        a == b || a.spec_is_before(b) || b.spec_is_before(a),
        a.spec_is_before(b) ==> !b.spec_is_before(a),
        a.secs < b.secs ==> a.spec_is_before(b),
        a.secs == b.secs ==> (a.spec_is_before(b) <==> a.nanos < b.nanos),
{
}

#[verifier::external_body]
fn utc_now() -> (t: Timestamp)
    ensures
        t.secs >= 0,
        t.nanos < 1_000_000_000,
{
    let now = chrono::Utc::now();
    Timestamp { secs: now.timestamp(), nanos: now.timestamp_subsec_nanos() }
}

/// The current time of the system clock. Nothing but its range is known.
pub fn now() -> (t: Timestamp)
    ensures
        t.secs >= 0,
        t.nanos < 1_000_000_000,
{
    utc_now()
}

} // verus!
