//! Instants in UTC as plain numbers, and the time that passed between two of them.

use vstd::prelude::*;

verus! {

/// The earliest second that a chrono date-time can stand for (January 1 of the year -262143).
pub const MIN_TIMESTAMP_SECS: i64 = -8334601228800;

/// The last second that a chrono date-time can stand for (December 31 of the year 262142).
pub const MAX_TIMESTAMP_SECS: i64 = 8210266876799;

/// One second in nanoseconds.
pub const NANOS_PER_SEC: i64 = 1000000000;

/// A UTC instant: whole seconds since 1970-01-01 00:00:00 and the nanoseconds
/// within that second. A leap second is written with `nanos` from one to two
/// billion, as chrono writes it.
#[derive(Clone, Copy, Debug)]
pub struct Timestamp {
    pub secs: i64,
    pub nanos: u32,
}

impl Timestamp {
    /// The instants that chrono's `NaiveDateTime` can hold: within its range of
    /// years, and a leap second only in the last second of a minute.
    pub open spec fn wf(self) -> bool {
        &&& MIN_TIMESTAMP_SECS <= self.secs <= MAX_TIMESTAMP_SECS
        &&& self.nanos < 2 * NANOS_PER_SEC
        &&& (self.nanos >= NANOS_PER_SEC ==> (self.secs as int) % 60 == 59)
    }

    /// Whether this instant is written as a leap second.
    pub open spec fn is_leap(self) -> bool {
        self.nanos >= NANOS_PER_SEC
    }

    /// The instant 1970-01-01 00:00:00, which `NaiveDateTime::default()` stands for.
    pub fn epoch() -> (t: Timestamp)
        ensures
            t.secs == 0,
            t.nanos == 0,
            t.wf(),
    {
        Timestamp { secs: 0, nanos: 0 }
    }
}

/// The exact time from `then` to `now` in nanoseconds, for instants that are not leap seconds.
pub open spec fn plain_elapsed_nanos(now: Timestamp, then: Timestamp) -> int {
    (now.secs - then.secs) * NANOS_PER_SEC + (now.nanos - then.nanos)
}

/// The second of its day that an instant falls in (0 to 86399).
pub open spec fn second_of_day(t: Timestamp) -> int {
    (t.secs as int) % 86400
}

/// The second that chrono adds to, or takes from, a time difference because of a
/// leap second: it counts a leap second of `then` when `now` is later in its day,
/// and leaves out a leap second of `now` when `now` is earlier in its day.
pub open spec fn leap_adjustment(now: Timestamp, then: Timestamp) -> int {
    if second_of_day(now) > second_of_day(then) && then.is_leap() {
        1
    } else if second_of_day(now) < second_of_day(then) && now.is_leap() {
        -1
    } else {
        0
    }
}

/// The time from `then` to `now` in nanoseconds, as chrono's `NaiveDateTime`
/// subtraction computes it.
pub open spec fn elapsed_nanos(now: Timestamp, then: Timestamp) -> int {
    plain_elapsed_nanos(now, then) + leap_adjustment(now, then) * NANOS_PER_SEC
}

/// `now - then` on chrono `NaiveDateTime`s built from the two instants
/// (`DateTime::from_timestamp(..).naive_utc()`), read back with
/// `TimeDelta::num_seconds` and `TimeDelta::subsec_nanos`.
/// Claimed, as chrono's source shows: the difference of the days, plus that of
/// the seconds of the day corrected by one second for a leap second as
/// `NaiveTime::signed_duration_since` does (`elapsed_nanos`), plus that of the
/// fractions; split into whole seconds and a remainder of the same sign below
/// one second.
#[verifier::external_body]
fn chrono_since(now: &Timestamp, then: &Timestamp) -> (r: (i64, i32))
    requires
        now.wf(),
        then.wf(),
    ensures
        r.0 * NANOS_PER_SEC + r.1 == elapsed_nanos(*now, *then),
        -NANOS_PER_SEC < r.1 < NANOS_PER_SEC,
        r.0 > 0 ==> r.1 >= 0,
        r.0 < 0 ==> r.1 <= 0,
{
    let a = chrono::DateTime::from_timestamp(now.secs, now.nanos).unwrap().naive_utc();
    let b = chrono::DateTime::from_timestamp(then.secs, then.nanos).unwrap().naive_utc();
    let d = a - b;
    (d.num_seconds(), d.subsec_nanos())
}

/// The time from `then` to `now` in nanoseconds, as chrono's subtraction gives it.
pub fn elapsed_since(now: &Timestamp, then: &Timestamp) -> (r: i128)
    requires
        now.wf(),
        then.wf(),
    ensures
        r == elapsed_nanos(*now, *then),
        !now.is_leap() && !then.is_leap() ==> r == plain_elapsed_nanos(*now, *then),
{
    let parts = chrono_since(now, then);
    (parts.0 as i128) * (NANOS_PER_SEC as i128) + (parts.1 as i128)
}

/// The largest number of seconds that chrono's `TimeDelta::seconds` accepts.
pub const MAX_DELTA_SECS: i64 = 9223372036854775;

/// Whether more than `timeout_secs` seconds passed from `then` to `now`, that is
/// whether `now - then > TimeDelta::seconds(timeout_secs)` in chrono.
pub fn more_than_seconds_passed(now: &Timestamp, then: &Timestamp, timeout_secs: i64) -> (r: bool)
    requires
        now.wf(),
        then.wf(),
        -MAX_DELTA_SECS <= timeout_secs <= MAX_DELTA_SECS,
    ensures
        r == (elapsed_nanos(*now, *then) > timeout_secs * NANOS_PER_SEC),
{
    let elapsed = elapsed_since(now, then);
    elapsed > (timeout_secs as i128) * (NANOS_PER_SEC as i128)
}

} // verus!

verus! {

/// How chrono's `Display` writes a `NaiveDateTime`, such as
/// `2024-05-01 12:34:56.789`.
pub uninterp spec fn chrono_text(secs: i64, nanos: u32) -> Seq<char>;

/// The text of the instant as chrono writes a `NaiveDateTime`
/// (`DateTime::from_timestamp(..).naive_utc()`, then `to_string`).
/// Claimed: the text is `chrono_text` of the two numbers.
#[verifier::external_body]
pub(crate) fn naive_text(t: &Timestamp) -> (r: String)
    requires
        t.wf(),
    ensures
        r@ == chrono_text(t.secs, t.nanos),
{
    chrono::DateTime::from_timestamp(t.secs, t.nanos).unwrap().naive_utc().to_string()
}

} // verus!
