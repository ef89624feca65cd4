use vstd::prelude::*;
use chrono::{DateTime, TimeDelta, Utc};

verus! {

/// A point in UTC time as `chrono` counts it: whole seconds since
/// 1970-01-01T00:00:00Z (leap seconds not counted) and the nanoseconds past
/// that second, which reach 1_000_000_000 or more only within a leap second.
#[derive(Clone, Copy, Debug, PartialEq, Eq, Structural)]
pub struct Timestamp {
    pub secs: i64,
    pub nanos: u32,
}

/// `a` lies strictly before `b`.
pub open spec fn spec_before(a: Timestamp, b: Timestamp) -> bool {
    a.secs < b.secs || (a.secs == b.secs && a.nanos < b.nanos)
}

impl Timestamp {
    /// Whether this point lies strictly before `other`.
    pub fn is_before(&self, other: &Timestamp) -> (r: bool)
        ensures
            r == spec_before(*self, *other),
    {
        self.secs < other.secs || (self.secs == other.secs && self.nanos < other.nanos)
    }
}

/// What `chrono::DateTime::parse_from_rfc3339` reads from a text, taken to
/// UTC as (seconds, nanoseconds).
pub uninterp spec fn spec_parse_rfc3339(text: Seq<char>) -> Option<(i64, u32)>;

/// Reads an RFC 3339 date and time with `chrono::DateTime::parse_from_rfc3339`
/// and gives it in UTC (`timestamp`, `timestamp_subsec_nanos`). Claimed: the
/// result is the one named by `spec_parse_rfc3339`. The wording of the error
/// message is left unsaid.
#[verifier::external_body]
pub fn parse_rfc3339(text: &str) -> (r: Result<Timestamp, String>)
    ensures
        match r {
            Ok(t) => spec_parse_rfc3339(text@) == Some((t.secs, t.nanos)),
            Err(_) => spec_parse_rfc3339(text@) is None,
        },
{
    match DateTime::parse_from_rfc3339(text) {
        Ok(d) => Ok(Timestamp { secs: d.timestamp(), nanos: d.timestamp_subsec_nanos() }),
        Err(e) => Err(e.to_string()),
    }
}

/// The first second `chrono` can represent: -262143-01-01T00:00:00Z.
pub open spec fn spec_min_secs() -> int {
    -8_334_601_228_800
}

/// The last second `chrono` can represent: +262142-12-31T23:59:59Z.
pub open spec fn spec_max_secs() -> int {
    8_210_266_876_799
}

/// A whole second within `chrono`'s range.
pub open spec fn spec_in_range(secs: int) -> bool {
    spec_min_secs() <= secs <= spec_max_secs()
}

/// What `chrono` gives for a point in time plus a number of seconds, or
/// `None` where it refuses (a delta or a result out of its range).
pub uninterp spec fn spec_add_seconds(secs: i64, nanos: u32, delta: i64) -> Option<(i64, u32)>;

/// Adds `delta` seconds to a point in time with `chrono`
/// (`DateTime::from_timestamp`, `TimeDelta::try_seconds`,
/// `DateTime::checked_add_signed`). Claimed: the result is the one named by
/// `spec_add_seconds`, and outside a leap second an addition that succeeds
/// moves the whole seconds by `delta` and keeps the nanoseconds; outside a
/// leap second, with both the start and the sum within chrono's range, it
/// succeeds.
#[verifier::external_body]
pub fn add_seconds(t: Timestamp, delta: i64) -> (r: Option<Timestamp>)
    ensures
        match r {
            Some(v) => spec_add_seconds(t.secs, t.nanos, delta) == Some((v.secs, v.nanos)),
            None => spec_add_seconds(t.secs, t.nanos, delta) is None,
        },
        t.nanos < 1_000_000_000 ==> (r matches Some(v) ==> v.secs == t.secs + delta && v.nanos
            == t.nanos),
        t.nanos < 1_000_000_000 && spec_in_range(t.secs as int) && spec_in_range(t.secs + delta)
            ==> r is Some,
{
    let start = DateTime::from_timestamp(t.secs, t.nanos)?;
    let step = TimeDelta::try_seconds(delta)?;
    let end = start.checked_add_signed(step)?;
    Some(Timestamp { secs: end.timestamp(), nanos: end.timestamp_subsec_nanos() })
}

/// The current UTC time from `chrono::Utc::now`. Claimed: it lies outside a
/// leap second (the system clock counts none), not before 1970 and within
/// chrono's range (`Utc::now` panics otherwise, a condition of the machine).
/// Which time it is, is not stated.
#[verifier::external_body]
pub fn utc_now() -> (r: Timestamp)
    ensures
        r.nanos < 1_000_000_000,
        0 <= r.secs <= spec_max_secs(),
{
    let now = Utc::now();
    Timestamp { secs: now.timestamp(), nanos: now.timestamp_subsec_nanos() }
}

} // verus!
