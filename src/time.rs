use vstd::prelude::*;

verus! {

/// A UTC instant: whole seconds since the Unix epoch and the nanoseconds
/// past that second.
#[derive(Clone, Copy, Debug, PartialEq, Eq, Structural)]
pub struct Timestamp {
    pub secs: i64,
    pub nanos: u32,
}

impl Timestamp {
    /// The instants are ordered by seconds first, then by nanoseconds.
    pub open spec fn before(self, other: Timestamp) -> bool {
        self.secs < other.secs || (self.secs == other.secs && self.nanos < other.nanos)
    }

    pub open spec fn spec_cmp(self, other: Timestamp) -> core::cmp::Ordering {
        if self.before(other) {
            core::cmp::Ordering::Less
        } else if self == other {
            core::cmp::Ordering::Equal
        } else {
            core::cmp::Ordering::Greater
        }
    }

    pub fn new(secs: i64, nanos: u32) -> (r: Timestamp)
        ensures
            r.secs == secs,
            r.nanos == nanos,
    {
        Timestamp { secs, nanos }
    }

    /// Compares two instants, seconds first.
    pub fn compare(&self, other: &Timestamp) -> (r: core::cmp::Ordering)
        ensures
            r == self.spec_cmp(*other),
    {
        if self.secs < other.secs || (self.secs == other.secs && self.nanos < other.nanos) {
            core::cmp::Ordering::Less
        } else if self.secs == other.secs && self.nanos == other.nanos {
            core::cmp::Ordering::Equal
        } else {
            core::cmp::Ordering::Greater
        }
    }
}

impl PartialOrd for Timestamp {
    fn partial_cmp(&self, other: &Timestamp) -> (r: Option<core::cmp::Ordering>) {
        Some(self.compare(other))
    }
}

impl vstd::std_specs::cmp::PartialOrdSpecImpl for Timestamp {
    open spec fn obeys_partial_cmp_spec() -> bool {
        true
    }

    open spec fn partial_cmp_spec(&self, other: &Timestamp) -> Option<core::cmp::Ordering> {
        Some(self.spec_cmp(*other))
    }
}

/// Relies on chrono::Utc::now: the current time of the system clock, built
/// from a duration since the epoch, so its nanosecond part is below one second.
#[verifier::external_body]
pub(crate) fn clock_now() -> (r: Timestamp)
    ensures
        r.nanos < 1_000_000_000,
{
    let now = chrono::Utc::now();
    Timestamp { secs: now.timestamp(), nanos: now.timestamp_subsec_nanos() }
}

} // verus!
