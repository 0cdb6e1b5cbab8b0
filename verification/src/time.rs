//! Instants in time, as seconds and nanoseconds since the Unix epoch.
use vstd::prelude::*;

verus! {

/// An instant: whole seconds since 1970-01-01T00:00:00Z and the nanoseconds
/// within that second.
#[derive(Debug, Clone, Copy, PartialEq, Eq)]
pub struct Timestamp {
    pub secs: i64,
    pub nanos: u32,
}

/// A bound on the seconds since the epoch of any instant that the clock
/// reads: past the end of the last year that chrono represents.
pub const CLOCK_SECS_BOUND: i64 = 10_000_000_000_000;

/// `a` lies strictly before `b`.
pub open spec fn spec_before(a: Timestamp, b: Timestamp) -> bool {
    a.secs < b.secs || (a.secs == b.secs && a.nanos < b.nanos)
}

/// Instants are ordered by their seconds first: one whose seconds are
/// smaller comes before, whatever the nanoseconds; one whose seconds are
/// larger never does; within one second the nanoseconds decide. No instant
/// comes before itself, and the order is transitive.
pub proof fn law_instants_ordered_by_seconds_first(a: Timestamp, b: Timestamp, c: Timestamp)
    ensures
        a.secs < b.secs ==> spec_before(a, b),
        a.secs > b.secs ==> !spec_before(a, b),
        a.secs == b.secs ==> (spec_before(a, b) <==> a.nanos < b.nanos),
        !spec_before(a, a),
        spec_before(a, b) && spec_before(b, c) ==> spec_before(a, c),
        spec_before(a, b) || spec_before(b, a) || a == b,
{
}

impl Timestamp {
    /// Whether `self` lies strictly before `other`.
    pub fn is_before(&self, other: &Timestamp) -> (res: bool)
        ensures
            res == spec_before(*self, *other),
            // seconds decide first; within a second, the nanoseconds
            self.secs < other.secs ==> res,
            self.secs > other.secs ==> !res,
            self.secs == other.secs ==> (res <==> self.nanos < other.nanos),
    {
        self.secs < other.secs || (self.secs == other.secs && self.nanos < other.nanos)
    }

    /// The current instant (`chrono::Utc::now`). Of the clock's reading only
    /// this is promised: a `DateTime<Utc>` holds no date after chrono's last
    /// year (262142), so its seconds since the epoch stay below
    /// [`CLOCK_SECS_BOUND`].
    #[verifier::external_body]
    pub(crate) fn now() -> (res: Timestamp)
        ensures
            res.secs < CLOCK_SECS_BOUND,
    {
        let now = chrono::Utc::now();
        Timestamp { secs: now.timestamp(), nanos: now.timestamp_subsec_nanos() }
    }
}

} // verus!
