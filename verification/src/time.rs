//! Points in time, as the backend reports them: whole seconds since the Unix
//! epoch and the nanoseconds within that second.

use vstd::prelude::*;

verus! {

/// A point in time. Two timestamps are ordered by their seconds, then by
/// their nanoseconds.
#[derive(Clone, Copy, Debug, PartialEq, Eq, Structural)]
pub struct Timestamp {
    pub secs: i64,
    pub nanos: u32,
}

impl Timestamp {
    /// The integer by which timestamps are ordered: earlier means smaller.
    pub open spec fn instant(self) -> int {
        self.secs * 0x1_0000_0000 + self.nanos
    }

    /// Whether `self` is strictly earlier than `other`.
    pub open spec fn is_before(self, other: Timestamp) -> bool {
        self.secs < other.secs || (self.secs == other.secs && self.nanos < other.nanos)
    }

    /// A timestamp from seconds and nanoseconds.
    pub fn new(secs: i64, nanos: u32) -> (t: Timestamp)
        ensures
            t.secs == secs,
            t.nanos == nanos,
    {
        Timestamp { secs, nanos }
    }

    /// Decides whether `self` is strictly earlier than `other`.
    pub fn before(&self, other: &Timestamp) -> (earlier: bool)
        ensures
            earlier == self.is_before(*other),
            earlier == (self.instant() < other.instant()),
    {
        proof {
            lemma_instant_orders(*self, *other);
        }
        self.secs < other.secs || (self.secs == other.secs && self.nanos < other.nanos)
    }

    /// Decides whether `self` is strictly later than `other`.
    pub fn after(&self, other: &Timestamp) -> (later: bool)
        ensures
            later == other.is_before(*self),
            later == (self.instant() > other.instant()),
    {
        other.before(self)
    }
}

/// Timestamps are ordered as their instants are, and two timestamps with the
/// same instant are the same timestamp.
pub proof fn lemma_instant_orders(a: Timestamp, b: Timestamp)
    ensures
        a.is_before(b) <==> a.instant() < b.instant(),
        a.instant() == b.instant() <==> a == b,
{
}

} // verus!
