//! Points in time.

use vstd::prelude::*;

verus! {

/// The seconds and nanoseconds of a point in time: within the years -262143 to 262142, and with
/// a billion nanoseconds or more only in the last second of a minute, for a leap second.
pub open spec fn is_time(seconds: i64, nanos: u32) -> bool {
    &&& -8_334_601_228_800 <= seconds <= 8_210_266_876_799
    &&& nanos < 1_000_000_000 || (nanos < 2_000_000_000 && seconds % 60 == 59)
}

/// What `chrono::DateTime::to_rfc3339` writes for a point in time, in UTC.
pub uninterp spec fn rfc3339_text(seconds: i64, nanos: u32) -> Seq<char>;

/// `chrono::DateTime::from_timestamp`, which has a result just for points in time.
#[verifier::external_body]
fn time_exists(seconds: i64, nanos: u32) -> (r: bool)
    ensures
        r == is_time(seconds, nanos),
{
    chrono::DateTime::from_timestamp(seconds, nanos).is_some()
}

/// `chrono::DateTime::to_rfc3339`. The text is left to the name.
#[verifier::external_body]
fn write_rfc3339(seconds: i64, nanos: u32) -> (r: String)
    requires
        is_time(seconds, nanos),
    ensures
        r@ == rfc3339_text(seconds, nanos),
{
    chrono::DateTime::from_timestamp(seconds, nanos).unwrap().to_rfc3339()
}

/// A point in time: seconds since the Unix epoch, and nanoseconds.
#[derive(Clone, Copy, PartialEq, Eq, Debug, Structural)]
pub struct Timestamp {
    seconds: i64,
    nanos: u32,
}

impl View for Timestamp {
    type V = (i64, u32);

    closed spec fn view(&self) -> (i64, u32) {
        (self.seconds, self.nanos)
    }
}

impl Timestamp {
    #[verifier::type_invariant]
    spec fn exists_in_time(self) -> bool {
        is_time(self.seconds, self.nanos)
    }

    /// The point in time so many seconds after the epoch and nanoseconds after that, if there
    /// is one.
    pub fn new(seconds: i64, nanos: u32) -> (r: Option<Self>)
        ensures
            match r {
                Some(t) => is_time(seconds, nanos) && t@ == (seconds, nanos),
                None => !is_time(seconds, nanos),
            },
    {
        if time_exists(seconds, nanos) {
            Some(Timestamp { seconds, nanos })
        } else {
            None
        }
    }

    /// Seconds since the epoch.
    pub fn seconds(&self) -> (r: i64)
        ensures
            r == self@.0,
            is_time(self@.0, self@.1),
    {
        proof {
            use_type_invariant(self);
        }
        self.seconds
    }

    /// Nanoseconds within the second.
    pub fn nanos(&self) -> (r: u32)
        ensures
            r == self@.1,
            is_time(self@.0, self@.1),
    {
        proof {
            use_type_invariant(self);
        }
        self.nanos
    }

    /// The time as RFC 3339 writes it, in UTC.
    pub fn to_rfc3339(&self) -> (r: String)
        ensures
            r@ == rfc3339_text(self@.0, self@.1),
    {
        proof {
            use_type_invariant(self);
        }
        write_rfc3339(self.seconds, self.nanos)
    }
}

} // verus!
