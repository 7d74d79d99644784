//! Moments in time as plain values, and how far two of them lie apart.

use vstd::prelude::*;

verus! {

/// A moment: seconds since 1970 and the nanoseconds behind them. Inside a leap
/// second the nanoseconds go on past one thousand million.
#[derive(Clone, Copy, Debug, PartialEq, Eq, Structural)]
pub struct Timestamp {
    pub secs: i64,
    pub nanos: u32,
}

pub const NANOS: i64 = 1_000_000_000;

impl Timestamp {
    /// A moment that `chrono` can hold.
    pub open spec fn valid(self) -> bool {
        &&& -8_334_601_228_800 <= self.secs <= 8_210_266_876_799
        &&& self.nanos < 2_000_000_000
        &&& self.nanos >= NANOS ==> self.secs % 60 == 59
    }

    /// A moment in the years 0 to 9999.
    pub open spec fn four_digit_year(self) -> bool {
        -62_167_219_200 <= self.secs <= 253_402_300_799
    }
}

/// What `DateTime::parse_from_rfc3339` makes of a text.
pub uninterp spec fn rfc3339_parse(text: Seq<char>) -> Option<Timestamp>;

/// What `DateTime::to_rfc3339` writes for a moment in UTC.
pub uninterp spec fn rfc3339_text(at: Timestamp) -> Seq<char>;

/// Calls `chrono::DateTime::parse_from_rfc3339`, which is given the name
/// `rfc3339_parse`. The moment found is one that `chrono` can hold.
#[verifier::external_body]
pub(crate) fn parse_rfc3339(text: &str) -> (r: Option<Timestamp>)
    ensures
        r == rfc3339_parse(text@),
        r matches Some(at) ==> at.valid(),
{
    match chrono::DateTime::parse_from_rfc3339(text) {
        Ok(at) => Some(Timestamp { secs: at.timestamp(), nanos: at.timestamp_subsec_nanos() }),
        Err(_) => None,
    }
}

/// Calls `chrono::DateTime::to_rfc3339`, which is given the name
/// `rfc3339_text`. The text is never empty, and with a year of four digits it
/// reads back as the same moment.
#[verifier::external_body]
pub(crate) fn write_rfc3339(at: Timestamp) -> (text: String)
    requires
        at.valid(),
    ensures
        text@ == rfc3339_text(at),
        text@.len() > 0,
        at.four_digit_year() ==> rfc3339_parse(text@) == Some(at),
{
    let moment = chrono::DateTime::<chrono::Utc>::from_timestamp(at.secs, at.nanos);
    moment.unwrap().to_rfc3339()
}

/// Calls `chrono::Utc::now`. Nothing is known of the moment but that `chrono`
/// can hold it. A system clock that is set before 1970 makes the call panic.
#[verifier::external_body]
pub(crate) fn utc_now() -> (now: Timestamp)
    ensures
        now.valid(),
{
    let now = chrono::Utc::now();
    Timestamp { secs: now.timestamp(), nanos: now.timestamp_subsec_nanos() }
}

/// The nanoseconds from `then` to `now`. A leap second is counted when it lies
/// between the two times of day.
pub open spec fn nanos_between(now: Timestamp, then: Timestamp) -> int {
    let day_now = now.secs as int % 86400;
    let day_then = then.secs as int % 86400;
    let leap: int = if day_now > day_then && then.nanos >= NANOS {
        1
    } else if day_now < day_then && now.nanos >= NANOS {
        -1
    } else {
        0
    };
    (now.secs - then.secs + leap) * NANOS + now.nanos - then.nanos
}

/// Calls `chrono::DateTime::signed_duration_since` and gives the whole seconds
/// and the nanoseconds of the duration, which have the same sign.
#[verifier::external_body]
pub(crate) fn duration_since(now: Timestamp, then: Timestamp) -> (r: (i64, i32))
    requires
        now.valid(),
        then.valid(),
    ensures
        r.0 * NANOS + r.1 == nanos_between(now, then),
        -NANOS < r.1 < NANOS,
        r.0 > 0 ==> r.1 >= 0,
        r.0 < 0 ==> r.1 <= 0,
{
    let now = chrono::DateTime::<chrono::Utc>::from_timestamp(now.secs, now.nanos).unwrap();
    let then = chrono::DateTime::<chrono::Utc>::from_timestamp(then.secs, then.nanos).unwrap();
    let passed = now.signed_duration_since(then);
    (passed.num_seconds(), passed.subsec_nanos())
}

/// Whether less than `hours` hours lie between `then` and `now`.
pub open spec fn within_hours(now: Timestamp, then: Timestamp, hours: int) -> bool {
    nanos_between(now, then) < hours * 3600 * NANOS
}

/// Whether less than `hours` hours have passed from `then` to `now`. A `then`
/// that lies ahead counts as recent.
pub fn is_within_hours(now: Timestamp, then: Timestamp, hours: u32) -> (r: bool)
    requires
        now.valid(),
        then.valid(),
    ensures
        r == within_hours(now, then, hours as int),
{
    let (secs, nanos) = duration_since(now, then);
    let limit: i64 = hours as i64 * 3600;
    proof {
        let total = nanos_between(now, then);
        assert(total == secs * NANOS + nanos);
    }
    secs < limit || (secs == limit && nanos < 0)
}

} // verus!
