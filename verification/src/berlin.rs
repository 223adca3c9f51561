//! Local time in Europe/Berlin.

use chrono::{Offset, TimeZone};
use vstd::prelude::*;

use crate::time;
use crate::time::{
    CivilDate, Timestamp, Weekday, EARLIEST_SECS, LATEST_SECS, LONGEST_SPAN_SECS, SECS_PER_DAY,
};

verus! {

/// The instants that a local date and time stands for, in seconds since the
/// epoch.
#[derive(Clone, Copy, Debug, PartialEq, Eq, Structural)]
pub enum LocalInstants {
    /// The clocks were set forward over it.
    Gap,
    Single(i64),
    /// The clocks were set back over it: the earlier and the later instant.
    Fold(i64, i64),
}

/// The seconds by which Berlin is ahead of UTC at an instant.
pub uninterp spec fn offset_at(secs: int) -> int;

/// The instants that a Berlin date and time stands for. The date and time is
/// given as the seconds from the epoch to it, both read on one clock.
pub uninterp spec fn instants_of(local_secs: int) -> LocalInstants;

/// Trusts `chrono::DateTime::from_timestamp`, `DateTime::with_timezone` with
/// `chrono_tz::Europe::Berlin`, and `FixedOffset::local_minus_utc`: every
/// instant inside the calendar has an offset of less than a day, which depends
/// on the instant alone.
#[verifier::external_body]
pub(crate) fn berlin_offset(secs: i64) -> (r: Option<i32>)
    ensures
        EARLIEST_SECS - LONGEST_SPAN_SECS <= secs <= LATEST_SECS + LONGEST_SPAN_SECS ==> r is Some,
        r is Some ==> r->0 == offset_at(secs as int) && -86_400 < r->0 < 86_400,
{
    let t = chrono::DateTime::from_timestamp(secs, 0)?;
    Some(t.with_timezone(&chrono_tz::Europe::Berlin).offset().fix().local_minus_utc())
}

/// Trusts `TimeZone::from_local_datetime` of `chrono_tz::Europe::Berlin`: which
/// instants a date and time inside the calendar stands for depends on the date
/// and time alone. At each of them the offset leads back to the date and time,
/// and of two the earlier comes first.
#[verifier::external_body]
pub(crate) fn berlin_instants(local_secs: i64) -> (r: Option<LocalInstants>)
    ensures
        EARLIEST_SECS - LONGEST_SPAN_SECS <= local_secs <= LATEST_SECS + LONGEST_SPAN_SECS ==> r
            is Some,
        r is Some ==> r->0 == instants_of(local_secs as int),
        match r {
            Some(LocalInstants::Single(t)) => t + offset_at(t as int) == local_secs && -86_400 < t
                - local_secs < 86_400,
            Some(LocalInstants::Fold(a, b)) => a < b && a + offset_at(a as int) == local_secs && b
                + offset_at(b as int) == local_secs && -86_400 < a - local_secs < 86_400 && -86_400
                < b - local_secs < 86_400,
            _ => true,
        },
{
    let local = chrono::DateTime::from_timestamp(local_secs, 0)?.naive_utc();
    Some(match chrono_tz::Europe::Berlin.from_local_datetime(&local) {
        chrono::LocalResult::None => LocalInstants::Gap,
        chrono::LocalResult::Single(t) => LocalInstants::Single(t.timestamp()),
        chrono::LocalResult::Ambiguous(a, b) => LocalInstants::Fold(a.timestamp(), b.timestamp()),
    })
}

/// The Berlin date and time of an instant, as seconds since the epoch on the
/// Berlin clock.
pub open spec fn local_secs_of(secs: int) -> int {
    secs + offset_at(secs)
}

/// The Berlin date of an instant, in days since the epoch.
pub open spec fn local_day_of(secs: int) -> int {
    local_secs_of(secs) / 86_400
}

/// The Berlin second of the day of an instant.
pub open spec fn local_second_of_day(secs: int) -> int {
    local_secs_of(secs) % 86_400
}

/// The Berlin date and time of an instant.
pub fn local_secs(secs: i64) -> (r: i64)
    requires
        EARLIEST_SECS - LONGEST_SPAN_SECS <= secs <= LATEST_SECS + LONGEST_SPAN_SECS,
    ensures
        r == local_secs_of(secs as int),
        -86_400 < r - secs < 86_400,
{
    secs + berlin_offset(secs).unwrap() as i64
}

/// The Berlin date of an instant, in days since the epoch.
pub fn local_day(t: Timestamp) -> (d: i64)
    requires
        t.valid(),
    ensures
        d == local_day_of(t.spec_secs()),
        t.spec_secs() - 172_800 < d * 86_400 < t.spec_secs() + 86_400,
        EARLIEST_SECS - 172_800 <= d * 86_400 <= LATEST_SECS + 86_400,
{
    time::day_of(local_secs(t.secs()))
}

/// The Berlin hour and minute of an instant, as `HH:MM`.
pub fn local_clock(t: Timestamp) -> (r: String)
    requires
        t.valid(),
    ensures
        r@ == time::clock_text(local_second_of_day(t.spec_secs()) as nat),
{
    time::clock(time::second_of_day(local_secs(t.secs())))
}

/// The Berlin date of an instant, as the calendar library writes it.
pub open spec fn local_date_text(secs: int) -> Seq<char> {
    time::utc_date_text(local_day_of(secs) * SECS_PER_DAY)
}

/// The Berlin date of an instant, as the calendar library writes it.
pub fn local_date(t: Timestamp) -> (r: String)
    requires
        t.valid(),
    ensures
        r@ == local_date_text(t.spec_secs()),
{
    CivilDate { days: local_day(t) }.text()
}

/// The Berlin weekday of an instant.
pub fn local_weekday(t: Timestamp) -> (w: Weekday)
    requires
        t.valid(),
    ensures
        w == time::weekday_of(local_day_of(t.spec_secs())),
{
    time::weekday(local_day(t))
}

} // verus!
