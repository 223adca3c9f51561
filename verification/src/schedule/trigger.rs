//! When a recurring message is due.

use vstd::arithmetic::div_mod::lemma_fundamental_div_mod;
use vstd::prelude::*;

use super::weekday;
use super::weekday::WeekdaySet;
use crate::berlin;
use crate::berlin::LocalInstants;
use crate::time;
use crate::time::{TimeOfDay, Timestamp, Weekday, LATEST_SECS, TICKS_PER_SEC};

verus! {

/// The slots that are looked at before a search is given up: one a minute for
/// two weeks.
pub const SLOTS_TO_TRY: u32 = 20_160;

/// Seconds in an hour, by which the clocks jump.
pub const HOUR_SECS: i64 = 3_600;

/// What makes a message due.
#[derive(Clone, Copy, Debug, PartialEq, Eq, Structural)]
pub enum Trigger {
    /// Every so many seconds from midnight on, inside a part of the day.
    Interval {
        every: u64,
        days: WeekdaySet,
        active_from: Option<TimeOfDay>,
        active_to: Option<TimeOfDay>,
    },
    /// At a time of day.
    Calendar { days: WeekdaySet, at: TimeOfDay },
}

/// Whether a time of day, in nanoseconds, lies in a part of the day. The part
/// begins at its first bound and ends before its second, and may span midnight.
/// With less than two bounds it is the whole day.
pub open spec fn inside_window(
    nanos: int,
    from: Option<TimeOfDay>,
    to: Option<TimeOfDay>,
) -> bool {
    match (from, to) {
        (Some(f), Some(e)) => if e.nanos < f.nanos {
            nanos >= f.nanos || nanos < e.nanos
        } else {
            f.nanos <= nanos < e.nanos
        },
        _ => true,
    }
}

/// Whether a time of day lies in a part of the day.
pub fn in_window(t: TimeOfDay, from: Option<TimeOfDay>, to: Option<TimeOfDay>) -> (b: bool)
    ensures
        b == inside_window(t.nanos as int, from, to),
{
    match (from, to) {
        (Some(f), Some(e)) => if e.nanos < f.nanos {
            t.nanos >= f.nanos || t.nanos < e.nanos
        } else {
            t.nanos >= f.nanos && t.nanos < e.nanos
        },
        _ => true,
    }
}

/// The instant at which a Berlin day begins, in seconds. Where the clocks jump
/// over midnight, an hour later; then that has to be a single instant.
pub open spec fn day_start(day: int) -> Option<int> {
    match berlin::instants_of(day * 86_400) {
        LocalInstants::Single(t) => Some(t as int),
        LocalInstants::Fold(t, _) => Some(t as int),
        LocalInstants::Gap => match berlin::instants_of(day * 86_400 + HOUR_SECS) {
            LocalInstants::Single(t) => Some(t as int),
            _ => None,
        },
    }
}

/// The instant at which a Berlin day begins, in seconds.
fn day_start_berlin(day: i64) -> (r: Option<i64>)
    requires
        time::EARLIEST_SECS - 172_800 <= day * 86_400 <= LATEST_SECS + 86_400,
    ensures
        match r {
            Some(t) => day_start(day as int) == Some(t as int) && -90_000 < t - day * 86_400
                < 90_000,
            None => day_start(day as int) is None,
        },
{
    let midnight: i64 = day * 86_400;
    match berlin::berlin_instants(midnight).unwrap() {
        LocalInstants::Single(t) => Some(t),
        LocalInstants::Fold(t, _) => Some(t),
        LocalInstants::Gap => match berlin::berlin_instants(midnight + HOUR_SECS).unwrap() {
            LocalInstants::Single(t) => Some(t),
            _ => None,
        },
    }
}

/// Whether a message may be due at an instant.
pub open spec fn slot_allowed(
    secs: int,
    days: Set<Weekday>,
    from: Option<TimeOfDay>,
    to: Option<TimeOfDay>,
) -> bool {
    &&& inside_window(berlin::local_second_of_day(secs) * 1_000_000_000, from, to)
    &&& weekday::allowed(days, time::weekday_of(berlin::local_day_of(secs)))
}

/// The first slot at or after `secs` at which a message may be due. After so
/// many tries, the next slot as it is. There is none where the search leaves
/// the calendar.
pub open spec fn first_slot(
    secs: int,
    every: int,
    days: Set<Weekday>,
    from: Option<TimeOfDay>,
    to: Option<TimeOfDay>,
    tries: nat,
) -> Option<int>
    decreases tries,
{
    if secs > LATEST_SECS {
        None
    } else if tries == 0 || slot_allowed(secs, days, from, to) {
        Some(secs)
    } else {
        first_slot(secs + every, every, days, from, to, (tries - 1) as nat)
    }
}

/// The whole seconds that a day has lasted, none where it has not begun.
pub open spec fn day_elapsed(now: Timestamp, start: int) -> int {
    let secs = time::whole_seconds(
        now.spec_since(Timestamp { ticks: (start * TICKS_PER_SEC) as i128 }),
    );
    if secs < 0 {
        0
    } else {
        secs
    }
}

/// The first slot after `now`, in seconds: the slots of a day are the multiples
/// of `every` from its beginning on.
pub open spec fn interval_fire(
    now: Timestamp,
    every: int,
    days: Set<Weekday>,
    from: Option<TimeOfDay>,
    to: Option<TimeOfDay>,
) -> Option<int> {
    if every == 0 {
        None
    } else {
        match day_start(berlin::local_day_of(now.spec_secs())) {
            Some(start) => first_slot(
                start + (day_elapsed(now, start) / every + 1) * every,
                every,
                days,
                from,
                to,
                SLOTS_TO_TRY as nat,
            ),
            None => None,
        }
    }
}

/// Whether a message may be due at an instant.
fn is_slot_allowed(
    secs: i64,
    days: WeekdaySet,
    from: Option<TimeOfDay>,
    to: Option<TimeOfDay>,
) -> (b: bool)
    requires
        time::EARLIEST_SECS <= secs <= LATEST_SECS,
    ensures
        b == slot_allowed(secs as int, days@, from, to),
{
    let local: i64 = berlin::local_secs(secs);
    let clock = TimeOfDay { nanos: time::second_of_day(local) as u64 * 1_000_000_000 };
    in_window(clock, from, to) && days.allows(berlin::local_weekday(Timestamp::from_secs(secs)))
}

/// The first slot after an instant and the end of the one before it.
proof fn lemma_slot(elapsed: int, every: int)
    requires
        elapsed >= 0,
        every > 0,
    ensures
        (elapsed / every + 1) * every == elapsed - elapsed % every + every,
        0 <= elapsed % every < every,
{
    lemma_fundamental_div_mod(elapsed, every);
    let q = elapsed / every;
    assert((q + 1) * every == every * q + every) by (nonlinear_arith);
}

/// The first slot after `now`.
fn next_interval(
    now: Timestamp,
    every: u64,
    days: WeekdaySet,
    from: Option<TimeOfDay>,
    to: Option<TimeOfDay>,
) -> (r: Option<i64>)
    requires
        now.valid(),
    ensures
        match r {
            Some(t) => interval_fire(now, every as int, days@, from, to) == Some(t as int) && t
                * TICKS_PER_SEC > now.ticks,
            None => interval_fire(now, every as int, days@, from, to) is None,
        },
{
    if every == 0 {
        return None;
    }
    let start: i64 = match day_start_berlin(berlin::local_day(now)) {
        Some(t) => t,
        None => {
            return None;
        },
    };
    let since: i64 = now.secs_since(Timestamp::from_secs(start));
    let elapsed: i128 = if since < 0 {
        0
    } else {
        since as i128
    };
    let step: i128 = every as i128;
    proof {
        lemma_slot(elapsed as int, step as int);
    }
    let mut t: i128 = start as i128 + (elapsed - elapsed % step + step);
    let ghost goal = interval_fire(now, every as int, days@, from, to);
    let mut tried: u32 = 0;
    while tried < SLOTS_TO_TRY
        invariant
            now.valid(),
            step == every,
            0 < step,
            tried <= SLOTS_TO_TRY,
            now.ticks < t * TICKS_PER_SEC,
            t <= 100_000_000_000_000 + step + tried * step,
            goal == first_slot(t as int, step as int, days@, from, to, (SLOTS_TO_TRY - tried) as nat),
            goal == interval_fire(now, every as int, days@, from, to),
        decreases SLOTS_TO_TRY - tried,
    {
        if t > LATEST_SECS as i128 {
            return None;
        }
        if is_slot_allowed(t as i64, days, from, to) {
            return Some(t as i64);
        }
        assert((tried + 1) * step == tried * step + step) by (nonlinear_arith);
        assert(tried * step <= 20_160 * step) by (nonlinear_arith)
            requires
                tried <= 20_160,
                step > 0,
        ;
        t = t + step;
        tried = tried + 1;
    }
    if t > LATEST_SECS as i128 {
        return None;
    }
    Some(t as i64)
}

/// A time of day on a Berlin day, as seconds on the Berlin clock.
pub open spec fn local_at(day: int, at: TimeOfDay) -> int {
    day * 86_400 + at.nanos as int / 1_000_000_000
}

/// The nanoseconds of the second in a time of day.
pub open spec fn fraction(at: TimeOfDay) -> int {
    at.nanos as int % 1_000_000_000
}

/// The instant of a time of day on a Berlin day, in ticks. Of two
/// instants it is the first. Where the clocks jump over it, it is an hour later;
/// where that is no single instant, it is `now`.
pub open spec fn calendar_instant(day: int, at: TimeOfDay, now: Timestamp) -> int {
    match berlin::instants_of(local_at(day, at)) {
        LocalInstants::Single(t) => t * TICKS_PER_SEC + fraction(at),
        LocalInstants::Fold(t, _) => t * TICKS_PER_SEC + fraction(at),
        LocalInstants::Gap => match berlin::instants_of(local_at(day, at) + HOUR_SECS) {
            LocalInstants::Single(t) => t * TICKS_PER_SEC + fraction(at),
            _ => now.ticks as int,
        },
    }
}

/// The first instant after `now` at a time of day, on one of so many days from
/// `day` on.
pub open spec fn calendar_from(
    day: int,
    at: TimeOfDay,
    days: Set<Weekday>,
    now: Timestamp,
    tries: nat,
) -> Option<int>
    decreases tries,
{
    if tries == 0 {
        None
    } else if weekday::allowed(days, time::weekday_of(day)) && calendar_instant(day, at, now)
        > now.ticks {
        Some(calendar_instant(day, at, now))
    } else {
        calendar_from(day + 1, at, days, now, (tries - 1) as nat)
    }
}

/// The first instant after `now` at a time of day, in ticks. Where there
/// is none in the coming week, it is in seven days.
pub open spec fn calendar_fire(now: Timestamp, days: Set<Weekday>, at: TimeOfDay) -> int {
    let today = berlin::local_day_of(now.spec_secs());
    match calendar_from(today, at, days, now, 8) {
        Some(t) => t,
        None => match berlin::instants_of(local_at(today + 7, at)) {
            LocalInstants::Single(t) => t * TICKS_PER_SEC + fraction(at),
            _ => now.spec_plus(604_800).ticks as int,
        },
    }
}

/// The instant of a time of day on a Berlin day, in ticks.
fn calendar_candidate(day: i64, at: TimeOfDay, now: Timestamp) -> (t: i128)
    requires
        now.valid(),
        at.valid(),
        time::EARLIEST_SECS - 172_800 <= day * 86_400 <= LATEST_SECS + 777_600,
    ensures
        t == calendar_instant(day as int, at, now),
        t == now.ticks || t as int % 2_000_000_000 < 1_000_000_000,
{
    let local: i64 = day * 86_400 + (at.nanos / 1_000_000_000) as i64;
    let fraction: i128 = (at.nanos % 1_000_000_000) as i128;
    match berlin::berlin_instants(local).unwrap() {
        LocalInstants::Single(t) => t as i128 * TICKS_PER_SEC + fraction,
        LocalInstants::Fold(t, _) => t as i128 * TICKS_PER_SEC + fraction,
        LocalInstants::Gap => match berlin::berlin_instants(local + HOUR_SECS).unwrap() {
            LocalInstants::Single(t) => t as i128 * TICKS_PER_SEC + fraction,
            _ => now.ticks,
        },
    }
}

/// The first instant after `now` at a time of day, in ticks.
fn next_calendar(now: Timestamp, days: WeekdaySet, at: TimeOfDay) -> (t: i128)
    requires
        now.valid(),
        at.valid(),
    ensures
        t == calendar_fire(now, days@, at),
        t > now.ticks,
        t as int % 2_000_000_000 < 1_000_000_000,
{
    let today: i64 = berlin::local_day(now);
    let ghost first = calendar_from(today as int, at, days@, now, 8);
    let mut offset: i64 = 0;
    while offset <= 7
        invariant
            now.valid(),
            at.valid(),
            0 <= offset <= 8,
            time::EARLIEST_SECS - 172_800 <= today * 86_400 <= LATEST_SECS + 86_400,
            now.spec_secs() - 172_800 < today * 86_400 < now.spec_secs() + 86_400,
            today == berlin::local_day_of(now.spec_secs()),
            first == calendar_from(today as int, at, days@, now, 8),
            first == calendar_from(today + offset, at, days@, now, (8 - offset) as nat),
        decreases 8 - offset,
    {
        let day: i64 = today + offset;
        if days.allows(time::weekday(day)) {
            let t: i128 = calendar_candidate(day, at, now);
            if t > now.ticks {
                return t;
            }
        }
        offset = offset + 1;
    }
    let local: i64 = (today + 7) * 86_400 + (at.nanos / 1_000_000_000) as i64;
    match berlin::berlin_instants(local).unwrap() {
        LocalInstants::Single(t) => {
            t as i128 * TICKS_PER_SEC + (at.nanos % 1_000_000_000) as i128
        },
        _ => now.plus_secs(604_800).ticks,
    }
}

impl Trigger {
    /// The times of day of the trigger are times of day.
    pub open spec fn valid(self) -> bool {
        self matches Trigger::Calendar { at, .. } ==> at.valid()
    }

    /// The first instant after `now` at which the trigger makes a message due.
    /// There is none for an interval of no seconds, on a day whose beginning
    /// cannot be told, and where the search leaves the calendar.
    pub open spec fn fires(self, now: Timestamp) -> Option<Timestamp> {
        match self {
            Trigger::Interval { every, days, active_from, active_to } => match interval_fire(
                now,
                every as int,
                days@,
                active_from,
                active_to,
            ) {
                Some(t) => Some(Timestamp { ticks: (t * TICKS_PER_SEC) as i128 }),
                None => None,
            },
            Trigger::Calendar { days, at } => Some(
                Timestamp { ticks: calendar_fire(now, days@, at) as i128 },
            ),
        }
    }

    /// The first instant after `now` at which the trigger makes a message due,
    /// where there is one.
    pub fn checked_next_fire_after(&self, now: Timestamp) -> (r: Option<Timestamp>)
        requires
            now.valid(),
            self.valid(),
        ensures
            r == self.fires(now),
            r is Some ==> (r->0).ticks > now.ticks,
            r is Some ==> !(r->0).leap(),
    {
        match *self {
            Trigger::Interval { every, days, active_from, active_to } => match next_interval(
                now,
                every,
                days,
                active_from,
                active_to,
            ) {
                Some(t) => Some(Timestamp::from_secs(t)),
                None => None,
            },
            Trigger::Calendar { days, at } => Some(
                Timestamp { ticks: next_calendar(now, days, at) },
            ),
        }
    }

    /// The first instant after `now` at which the trigger makes a message due.
    pub fn next_fire_after(&self, now: Timestamp) -> (r: Timestamp)
        requires
            now.valid(),
            self.valid(),
            self.fires(now) is Some,
        ensures
            self.fires(now) == Some(r),
            r.ticks > now.ticks,
            !r.leap(),
    {
        self.checked_next_fire_after(now).unwrap()
    }
}

/// A slot that the search comes to is one at which a message may be due, or
/// the one after as many as are tried.
pub proof fn law_slots_are_allowed(
    secs: int,
    every: int,
    days: Set<Weekday>,
    from: Option<TimeOfDay>,
    to: Option<TimeOfDay>,
    tries: nat,
)
    requires
        every > 0,
        first_slot(secs, every, days, from, to, tries) is Some,
    ensures
        ({
            let t = first_slot(secs, every, days, from, to, tries)->0;
            slot_allowed(t, days, from, to) || t == secs + tries * every
        }),
    decreases tries,
{
    if tries > 0 && !slot_allowed(secs, days, from, to) {
        law_slots_are_allowed(secs + every, every, days, from, to, (tries - 1) as nat);
        assert(tries * every == (tries - 1) * every + every) by (nonlinear_arith);
    } else {
        assert(0 * every == 0);
    }
}

/// No slot at which a message may be due is passed over.
pub proof fn law_no_slot_is_missed(
    secs: int,
    every: int,
    days: Set<Weekday>,
    from: Option<TimeOfDay>,
    to: Option<TimeOfDay>,
    tries: nat,
    k: nat,
)
    requires
        every > 0,
        first_slot(secs, every, days, from, to, tries) is Some,
        secs + k * every < first_slot(secs, every, days, from, to, tries)->0,
    ensures
        !slot_allowed(secs + k * every, days, from, to),
    decreases tries,
{
    let t = first_slot(secs, every, days, from, to, tries)->0;
    assert(k * every >= 0) by (nonlinear_arith)
        requires
            every > 0,
    ;
    if tries == 0 || slot_allowed(secs, days, from, to) {
    } else if k == 0 {
        assert(k * every == 0);
    } else {
        assert(k * every == (k - 1) * every + every) by (nonlinear_arith);
        law_no_slot_is_missed(
            secs + every,
            every,
            days,
            from,
            to,
            (tries - 1) as nat,
            (k - 1) as nat,
        );
    }
}

/// A time of day is found on a day on which a message may be due, after `now`.
pub proof fn law_days_are_allowed(
    day: int,
    at: TimeOfDay,
    days: Set<Weekday>,
    now: Timestamp,
    tries: nat,
)
    ensures
        match calendar_from(day, at, days, now, tries) {
            Some(t) => t > now.ticks && exists|d: int|
                day <= d < day + tries && weekday::allowed(days, time::weekday_of(d)) && t
                    == #[trigger] calendar_instant(d, at, now),
            None => true,
        },
    decreases tries,
{
    if tries > 0 {
        if weekday::allowed(days, time::weekday_of(day)) && calendar_instant(day, at, now)
            > now.ticks {
        } else {
            law_days_are_allowed(day + 1, at, days, now, (tries - 1) as nat);
        }
    }
}

} // verus!
