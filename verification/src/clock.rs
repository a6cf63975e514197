//! Points in time, and the one place where the library reads the clock.

use vstd::prelude::*;

verus! {

/// A point in time on the UTC time line: whole seconds since
/// 1970-01-01T00:00:00Z and the nanoseconds into that second.
#[derive(Debug, Clone, Copy, PartialEq, Eq, Structural)]
pub struct Timestamp {
    pub secs: i64,
    pub nanos: u32,
}

impl Timestamp {
    /// 1970-01-01T00:00:00Z.
    pub open spec fn spec_epoch() -> Timestamp {
        Timestamp { secs: 0, nanos: 0 }
    }

    /// 1970-01-01T00:00:00Z, the value of a time that was never set.
    #[verifier::when_used_as_spec(spec_epoch)]
    pub fn epoch() -> (t: Timestamp)
        ensures
            t == Timestamp::spec_epoch(),
    {
        Timestamp { secs: 0, nanos: 0 }
    }

    /// The number of the UTC calendar day that the time lies in, counted from
    /// 1970-01-01.
    pub open spec fn spec_day(self) -> i64 {
        (self.secs as int / 86400) as i64
    }

    /// The number of the UTC calendar day that the time lies in, counted from
    /// 1970-01-01.
    #[verifier::when_used_as_spec(spec_day)]
    pub fn day(self) -> (d: i64)
        ensures
            d == self.spec_day(),
    {
        if self.secs >= 0 {
            self.secs / 86400
        } else {
            let back: i64 = -1 - self.secs;
            let days: i64 = back / 86400;
            assert(self.secs as int / 86400 == -1 - days) by (nonlinear_arith)
                requires
                    back == -1 - self.secs,
                    back >= 0,
                    days == back as int / 86400,
            ;
            -1 - days
        }
    }

    /// Whether `self` lies no more than `seconds` seconds before `now`, or
    /// after it.
    pub open spec fn spec_is_within(self, now: Timestamp, seconds: u32) -> bool {
        self.secs > now.secs - seconds || (self.secs == now.secs - seconds && self.nanos
            >= now.nanos)
    }

    /// Whether `self` lies no more than `seconds` seconds before `now`, or
    /// after it.
    #[verifier::when_used_as_spec(spec_is_within)]
    pub fn is_within(self, now: Timestamp, seconds: u32) -> (b: bool)
        ensures
            b == self.spec_is_within(now, seconds),
    {
        let cutoff: i128 = now.secs as i128 - seconds as i128;
        let secs: i128 = self.secs as i128;
        secs > cutoff || (secs == cutoff && self.nanos >= now.nanos)
    }
}

/// Reads the system clock with `std::time::SystemTime::now`, converts the
/// time with chrono's `From<SystemTime> for DateTime<Utc>`, which takes times
/// before 1970 too, and returns it as seconds (`DateTime::timestamp`) and
/// nanoseconds (`DateTime::timestamp_subsec_nanos`).
///
/// Nothing is claimed of the result: it is whatever the clock says.
#[verifier::external_body]
pub(crate) fn now() -> Timestamp {
    let t = chrono::DateTime::<chrono::Utc>::from(std::time::SystemTime::now());
    Timestamp { secs: t.timestamp(), nanos: t.timestamp_subsec_nanos() }
}

} // verus!
