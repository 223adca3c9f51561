//! Instants, calendar days and times of day.

use vstd::prelude::*;
use vstd::string::StringExecFns;

use crate::text::number;

verus! {

pub const NANOS_PER_SEC: i128 = 1_000_000_000;

/// The ticks of a second: its nanoseconds, and as many again for those of a leap
/// second that follows it.
pub const TICKS_PER_SEC: i128 = 2_000_000_000;

pub const SECS_PER_DAY: i64 = 86_400;

/// The first instant, in seconds since the epoch, that the calendar holds with
/// a month to spare.
pub const EARLIEST_SECS: i64 = -8_334_000_000_000;

/// The last instant, in seconds since the epoch, that the calendar holds with
/// a month to spare.
pub const LATEST_SECS: i64 = 8_207_000_000_000;

/// The longest span that is added to an instant at once.
pub const LONGEST_SPAN_SECS: i64 = 2_592_000;

/// The quotient rounded down.
pub fn floor_div(n: i128, d: i128) -> (q: i128)
    requires
        d > 0,
        n > i128::MIN + d,
    ensures
        q == n as int / d as int,
{
    if n >= 0 {
        n / d
    } else {
        let q: i128 = -((-n + (d - 1)) / d);
        proof {
            let m = -(n as int);
            let k = (m + d - 1) / d as int;
            assert(n as int / d as int == -k) by (nonlinear_arith)
                requires
                    d > 0,
                    m == -(n as int),
                    m > 0,
                    k == (m + d - 1) / d as int,
            ;
        }
        q
    }
}

/// The whole seconds in `nanos`, rounded towards zero.
pub open spec fn whole_seconds(nanos: int) -> int {
    if nanos >= 0 {
        nanos / 1_000_000_000
    } else {
        -((-nanos) / 1_000_000_000)
    }
}

/// An instant of UTC, in ticks since the epoch. The second half of the ticks of a
/// second belongs to a leap second behind it, which can only follow the last
/// second of a minute and is counted neither in seconds since the epoch nor in
/// spans.
#[derive(Clone, Copy, Debug, PartialEq, Eq, Structural)]
pub struct Timestamp {
    pub ticks: i128,
}

impl Timestamp {
    /// The instant lies inside the calendar, with a month to spare on each side,
    /// and leap seconds are where they can be.
    pub open spec fn valid(self) -> bool {
        &&& EARLIEST_SECS * TICKS_PER_SEC <= self.ticks <= LATEST_SECS * TICKS_PER_SEC
        &&& self.leap() ==> self.spec_secs() % 60 == 59
    }

    /// The instant lies within the longest span from one that is valid.
    pub open spec fn reachable(self) -> bool {
        (EARLIEST_SECS - LONGEST_SPAN_SECS) * TICKS_PER_SEC <= self.ticks <= (LATEST_SECS
            + LONGEST_SPAN_SECS) * TICKS_PER_SEC
    }

    /// The seconds since the epoch, rounded down.
    pub open spec fn spec_secs(self) -> int {
        self.ticks as int / 2_000_000_000
    }

    /// The nanoseconds of the second, which go on through a leap second.
    pub open spec fn spec_frac(self) -> int {
        self.ticks as int % 2_000_000_000
    }

    /// Whether the instant lies in a leap second.
    pub open spec fn leap(self) -> bool {
        self.spec_frac() >= 1_000_000_000
    }

    /// The instant `secs` seconds after the epoch.
    pub fn from_secs(secs: i64) -> (t: Timestamp)
        ensures
            t.ticks == secs * TICKS_PER_SEC,
            !t.leap(),
            EARLIEST_SECS <= secs <= LATEST_SECS ==> t.valid(),
    {
        Timestamp { ticks: secs as i128 * TICKS_PER_SEC }
    }

    /// The instant `frac` nanoseconds after `secs` seconds after the epoch. From
    /// a thousand million nanoseconds on it lies in a leap second.
    pub fn from_parts(secs: i64, frac: u32) -> (t: Timestamp)
        requires
            frac < 2_000_000_000,
        ensures
            t.spec_secs() == secs,
            t.spec_frac() == frac,
            t.ticks == secs * TICKS_PER_SEC + frac,
    {
        Timestamp { ticks: secs as i128 * TICKS_PER_SEC + frac as i128 }
    }

    /// Whether the instant lies inside the calendar, with a month to spare on
    /// each side, and leap seconds are where they can be.
    pub fn is_valid(self) -> (b: bool)
        ensures
            b == self.valid(),
    {
        if self.ticks < EARLIEST_SECS as i128 * TICKS_PER_SEC || LATEST_SECS as i128
            * TICKS_PER_SEC < self.ticks {
            return false;
        }
        let secs: i128 = floor_div(self.ticks, TICKS_PER_SEC);
        let frac: i128 = self.ticks - secs * TICKS_PER_SEC;
        frac < NANOS_PER_SEC || secs - floor_div(secs, 60) * 60 == 59
    }

    /// The seconds since the epoch, rounded down.
    pub fn secs(self) -> (s: i64)
        requires
            self.valid(),
        ensures
            s == self.spec_secs(),
            EARLIEST_SECS <= s <= LATEST_SECS,
    {
        floor_div(self.ticks, TICKS_PER_SEC) as i64
    }

    /// The nanoseconds of the second, which go on through a leap second.
    pub fn frac(self) -> (n: u32)
        requires
            self.valid(),
        ensures
            n == self.spec_frac(),
    {
        (self.ticks - self.secs() as i128 * TICKS_PER_SEC) as u32
    }

    /// The instant `secs` seconds later. From a leap second on, the seconds are
    /// counted as if the second that it follows, or for those before it the one
    /// that follows it, were as far gone.
    pub open spec fn spec_plus(self, secs: int) -> Timestamp {
        let ticks = self.ticks + secs * 2_000_000_000;
        if !self.leap() || secs == 0 {
            Timestamp { ticks: ticks as i128 }
        } else if secs > 0 {
            Timestamp { ticks: (ticks - 1_000_000_000) as i128 }
        } else {
            Timestamp { ticks: (ticks + 1_000_000_000) as i128 }
        }
    }

    /// The instant `secs` seconds later.
    pub fn plus_secs(self, secs: i64) -> (t: Timestamp)
        requires
            self.valid(),
            -LONGEST_SPAN_SECS <= secs <= LONGEST_SPAN_SECS,
        ensures
            t == self.spec_plus(secs as int),
            secs != 0 ==> !t.leap(),
            self.ticks + (secs - 1) * TICKS_PER_SEC <= t.ticks <= self.ticks + (secs + 1)
                * TICKS_PER_SEC,
    {
        let ticks: i128 = self.ticks + secs as i128 * TICKS_PER_SEC;
        let leap = self.frac() >= 1_000_000_000;
        if !leap || secs == 0 {
            Timestamp { ticks }
        } else if secs > 0 {
            Timestamp { ticks: ticks - NANOS_PER_SEC }
        } else {
            Timestamp { ticks: ticks + NANOS_PER_SEC }
        }
    }

    /// The nanoseconds from another instant to this one. Leap seconds between
    /// the two are not counted. What has passed of one at an end is counted,
    /// unless the other end lies at a later time of day.
    pub open spec fn spec_since(self, other: Timestamp) -> int {
        let mine = self.spec_secs() % 86_400;
        let theirs = other.spec_secs() % 86_400;
        let secs = self.spec_secs() - other.spec_secs() + if mine > theirs && other.leap() {
            1int
        } else if mine < theirs && self.leap() {
            -1int
        } else {
            0int
        };
        secs * 1_000_000_000 + self.spec_frac() - other.spec_frac()
    }

    /// The nanoseconds from another instant to this one.
    pub fn nanos_since(self, other: Timestamp) -> (n: i128)
        requires
            self.reachable(),
            other.reachable(),
        ensures
            n == self.spec_since(other),
            -100_000_000_000_000_000_000_000 < n < 100_000_000_000_000_000_000_000,
    {
        let self_secs: i128 = floor_div(self.ticks, TICKS_PER_SEC);
        let self_frac: i128 = self.ticks - self_secs * TICKS_PER_SEC;
        let other_secs: i128 = floor_div(other.ticks, TICKS_PER_SEC);
        let other_frac: i128 = other.ticks - other_secs * TICKS_PER_SEC;
        let mine: u32 = second_of_day(self_secs as i64);
        let theirs: u32 = second_of_day(other_secs as i64);
        let leap: i128 = if mine > theirs && other_frac >= NANOS_PER_SEC {
            1
        } else if mine < theirs && self_frac >= NANOS_PER_SEC {
            -1
        } else {
            0
        };
        (self_secs - other_secs + leap) * NANOS_PER_SEC + self_frac - other_frac
    }

    /// The whole seconds from `earlier` to this instant, rounded towards zero.
    pub fn secs_since(self, earlier: Timestamp) -> (s: i64)
        requires
            self.reachable(),
            earlier.reachable(),
        ensures
            s == whole_seconds(self.spec_since(earlier)),
            s > i64::MIN,
    {
        let d: i128 = self.nanos_since(earlier);
        if d >= 0 {
            (d / NANOS_PER_SEC) as i64
        } else {
            (-((-d) / NANOS_PER_SEC)) as i64
        }
    }
}

/// A reading of a clock that never goes back, in nanoseconds.
#[derive(Clone, Copy, Debug, PartialEq, Eq, Structural)]
pub struct Moment {
    pub nanos: u64,
}

/// The hour and minute of a second of the day, as `HH:MM`.
pub open spec fn clock_text(second_of_day: nat) -> Seq<char> {
    number::two_digits(second_of_day / 3600) + seq![':'] + number::two_digits(
        (second_of_day % 3600) / 60,
    )
}

/// The hour and minute of a second of the day, as `HH:MM`.
pub fn clock(second_of_day: u32) -> (r: String)
    requires
        second_of_day < SECS_PER_DAY,
    ensures
        r@ == clock_text(second_of_day as nat),
{
    let mut r = number::two_digit_text((second_of_day / 3600) as u64);
    r.push(':');
    r.append(number::two_digit_text(((second_of_day % 3600) / 60) as u64).as_str());
    assert(r@ =~= clock_text(second_of_day as nat));
    r
}

impl Timestamp {
    /// The UTC hour and minute, as `HH:MM`.
    pub open spec fn utc_clock_text(self) -> Seq<char> {
        clock_text((self.spec_secs() % 86_400) as nat)
    }

    /// The UTC hour and minute, as `HH:MM`.
    pub fn utc_clock(self) -> (r: String)
        requires
            self.valid(),
        ensures
            r@ == self.utc_clock_text(),
    {
        clock(second_of_day(self.secs()))
    }
}

/// The seconds that have passed of the day that holds `secs`.
pub fn second_of_day(secs: i64) -> (s: u32)
    ensures
        s == secs as int % 86_400,
        s < 86_400,
{
    let day: i128 = floor_div(secs as i128, SECS_PER_DAY as i128);
    let s: i128 = secs as i128 - day * SECS_PER_DAY as i128;
    s as u32
}

/// The days since the epoch of the day that holds `secs`.
pub fn day_of(secs: i64) -> (d: i64)
    ensures
        d == secs as int / 86_400,
{
    floor_div(secs as i128, SECS_PER_DAY as i128) as i64
}

#[derive(Clone, Copy, Debug, PartialEq, Eq, Structural)]
pub enum Weekday {
    Mon,
    Tue,
    Wed,
    Thu,
    Fri,
    Sat,
    Sun,
}

impl Weekday {
    /// The number of days since the Monday of the week.
    pub open spec fn from_monday(self) -> int {
        match self {
            Weekday::Mon => 0,
            Weekday::Tue => 1,
            Weekday::Wed => 2,
            Weekday::Thu => 3,
            Weekday::Fri => 4,
            Weekday::Sat => 5,
            Weekday::Sun => 6,
        }
    }

    /// The number of days since the Monday of the week.
    pub fn num_days_from_monday(self) -> (n: u32)
        ensures
            n == self.from_monday(),
            n < 7,
    {
        match self {
            Weekday::Mon => 0,
            Weekday::Tue => 1,
            Weekday::Wed => 2,
            Weekday::Thu => 3,
            Weekday::Fri => 4,
            Weekday::Sat => 5,
            Weekday::Sun => 6,
        }
    }
}

/// The weekday of the day `days` days after the epoch, which was a Thursday.
pub open spec fn weekday_of(days: int) -> Weekday {
    let n = (days + 3) % 7;
    if n == 0 {
        Weekday::Mon
    } else if n == 1 {
        Weekday::Tue
    } else if n == 2 {
        Weekday::Wed
    } else if n == 3 {
        Weekday::Thu
    } else if n == 4 {
        Weekday::Fri
    } else if n == 5 {
        Weekday::Sat
    } else {
        Weekday::Sun
    }
}

/// The weekday of the day `days` days after the epoch.
pub fn weekday(days: i64) -> (w: Weekday)
    ensures
        w == weekday_of(days as int),
{
    let shifted: i128 = days as i128 + 3;
    let week: i128 = floor_div(shifted, 7);
    let n: i128 = shifted - week * 7;
    if n == 0 {
        Weekday::Mon
    } else if n == 1 {
        Weekday::Tue
    } else if n == 2 {
        Weekday::Wed
    } else if n == 3 {
        Weekday::Thu
    } else if n == 4 {
        Weekday::Fri
    } else if n == 5 {
        Weekday::Sat
    } else {
        Weekday::Sun
    }
}

/// A calendar day, counted from the epoch.
#[derive(Clone, Copy, Debug, PartialEq, Eq, Structural)]
pub struct CivilDate {
    pub days: i64,
}

impl CivilDate {
    /// The day lies inside the calendar, with a month to spare on each side.
    pub open spec fn valid(self) -> bool {
        EARLIEST_SECS <= self.days * SECS_PER_DAY <= LATEST_SECS
    }

    /// Whether the day lies inside the calendar, with a month to spare on each
    /// side.
    pub fn is_valid(self) -> (b: bool)
        ensures
            b == self.valid(),
    {
        let secs: i128 = self.days as i128 * SECS_PER_DAY as i128;
        EARLIEST_SECS as i128 <= secs && secs <= LATEST_SECS as i128
    }

    /// The day as the calendar library writes it.
    pub fn text(self) -> (r: String)
        requires
            EARLIEST_SECS - LONGEST_SPAN_SECS <= self.days * SECS_PER_DAY <= LATEST_SECS
                + LONGEST_SPAN_SECS,
        ensures
            r@ == utc_date_text(self.days * SECS_PER_DAY),
    {
        utc_date(self.days * SECS_PER_DAY).unwrap()
    }
}

/// A time of day, in nanoseconds since midnight.
#[derive(Clone, Copy, Debug, PartialEq, Eq, Structural)]
pub struct TimeOfDay {
    pub nanos: u64,
}

impl TimeOfDay {
    pub open spec fn valid(self) -> bool {
        self.nanos < 86_400_000_000_000
    }

    /// The time `hour:minute:second`, where there is one.
    pub fn from_hms(hour: u32, minute: u32, second: u32) -> (r: Option<TimeOfDay>)
        ensures
            r == if hour < 24 && minute < 60 && second < 60 {
                Some(
                    TimeOfDay {
                        nanos: ((hour * 3600 + minute * 60 + second) * 1_000_000_000) as u64,
                    },
                )
            } else {
                None::<TimeOfDay>
            },
            r is Some ==> r->0.valid(),
    {
        if hour < 24 && minute < 60 && second < 60 {
            let secs: u64 = hour as u64 * 3600 + minute as u64 * 60 + second as u64;
            Some(TimeOfDay { nanos: secs * 1_000_000_000 })
        } else {
            None
        }
    }
}

/// The calendar day of a UTC instant as the calendar library writes it.
pub uninterp spec fn utc_date_text(secs: int) -> Seq<char>;

/// Trusts `chrono::DateTime::from_timestamp`, `DateTime::date_naive` and the
/// `Display` of `NaiveDate`: an instant inside the calendar has a date, and its
/// text depends on the instant alone.
#[verifier::external_body]
pub(crate) fn utc_date(secs: i64) -> (r: Option<String>)
    ensures
        EARLIEST_SECS - LONGEST_SPAN_SECS <= secs <= LATEST_SECS + LONGEST_SPAN_SECS ==> r is Some,
        r is Some ==> r->0@ == utc_date_text(secs as int),
{
    chrono::DateTime::from_timestamp(secs, 0).map(|t| t.date_naive().to_string())
}

/// A UTC instant as the calendar library writes it in RFC 3339, in whole
/// seconds and with a final `Z`. It is given by the seconds since the epoch and
/// the nanoseconds of the second, which go on through a leap second.
pub uninterp spec fn rfc3339_text(secs: int, frac: int) -> Seq<char>;

/// Trusts `chrono::DateTime::from_timestamp` and `DateTime::to_rfc3339_opts`: an
/// instant inside the calendar has a text, which depends on the instant alone.
/// Leap seconds can only follow the last second of a minute.
#[verifier::external_body]
pub(crate) fn write_rfc3339(secs: i64, frac: u32) -> (r: Option<String>)
    ensures
        EARLIEST_SECS <= secs <= LATEST_SECS && (frac < 1_000_000_000 || (frac < 2_000_000_000
            && secs as int % 60 == 59)) ==> r is Some,
        r is Some ==> r->0@ == rfc3339_text(secs as int, frac as int),
{
    chrono::DateTime::from_timestamp(secs, frac).map(
        |t| t.to_rfc3339_opts(chrono::SecondsFormat::Secs, true),
    )
}

impl Timestamp {
    /// The instant in RFC 3339, in whole seconds.
    pub open spec fn rfc3339_view(self) -> Seq<char> {
        rfc3339_text(self.spec_secs(), self.spec_frac())
    }

    /// The instant in RFC 3339, in whole seconds.
    pub fn rfc3339(self) -> (r: String)
        requires
            self.valid(),
        ensures
            r@ == self.rfc3339_view(),
    {
        write_rfc3339(self.secs(), self.frac()).unwrap()
    }

    /// The calendar day of the instant in UTC.
    pub fn date_text(self) -> (r: String)
        requires
            self.valid(),
        ensures
            r@ == utc_date_text(self.spec_secs()),
    {
        utc_date(self.secs()).unwrap()
    }
}

/// The instant that the calendar library reads from an RFC 3339 text: the
/// seconds since the epoch, and the nanoseconds of the second, which go on
/// through a leap second.
pub uninterp spec fn rfc3339_parts(s: Seq<char>) -> Option<(i64, u32)>;

/// Trusts `chrono::DateTime::parse_from_rfc3339`, `DateTime::timestamp` and
/// `DateTime::timestamp_subsec_nanos`: what is read depends on the text alone,
/// and the year has four digits. The seconds and the nanoseconds of the second
/// come apart, and a leap second follows the last second of a minute.
#[verifier::external_body]
pub(crate) fn read_rfc3339(s: &str) -> (r: Option<(i64, u32)>)
    ensures
        r == rfc3339_parts(s@),
        match r {
            Some((secs, frac)) => -63_000_000_000 <= secs <= 254_000_000_000 && frac
                < 2_000_000_000 && (frac >= 1_000_000_000 ==> secs as int % 60 == 59),
            None => true,
        },
{
    chrono::DateTime::parse_from_rfc3339(s).ok().map(|t| (t.timestamp(), t.timestamp_subsec_nanos()))
}

/// The instant of an RFC 3339 text, where it is one.
pub open spec fn rfc3339_instant(s: Seq<char>) -> Option<Timestamp> {
    match rfc3339_parts(s) {
        Some((secs, frac)) => Some(Timestamp { ticks: (secs * TICKS_PER_SEC + frac) as i128 }),
        None => None,
    }
}

/// The instant of an RFC 3339 text, where it is one.
pub fn parse_rfc3339(s: &str) -> (r: Option<Timestamp>)
    ensures
        r == rfc3339_instant(s@),
        r is Some ==> r->0.valid(),
        match rfc3339_parts(s@) {
            Some((secs, frac)) => r is Some && r->0.spec_secs() == secs && r->0.spec_frac() == frac,
            None => r is None,
        },
{
    match read_rfc3339(s) {
        Some((secs, frac)) => Some(Timestamp::from_parts(secs, frac)),
        None => None,
    }
}

/// Outside leap seconds, so many seconds later is so many seconds after, and the span
/// between two instants counts their seconds and what is over of each.
pub proof fn law_spans_measure_seconds(t: Timestamp, u: Timestamp, secs: int)
    requires
        !t.leap(),
        !u.leap(),
        t.reachable(),
        -LONGEST_SPAN_SECS <= secs <= LONGEST_SPAN_SECS,
    ensures
        t.spec_plus(secs).spec_since(t) == secs * 1_000_000_000,
        t.spec_since(t.spec_plus(secs)) == -secs * 1_000_000_000,
        t.spec_since(u) == (t.spec_secs() * 1_000_000_000 + t.spec_frac()) - (u.spec_secs()
            * 1_000_000_000 + u.spec_frac()),
        t.spec_since(u) > 0 <==> t.ticks > u.ticks,
{
    let v = t.spec_plus(secs);
    assert(v.ticks == t.ticks + secs * 2_000_000_000);
    assert(v.spec_secs() == t.spec_secs() + secs);
    assert(v.spec_frac() == t.spec_frac());
}

} // verus!
