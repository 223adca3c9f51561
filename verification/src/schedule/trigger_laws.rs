//! What holds of the instants at which messages are due.

use vstd::prelude::*;

use super::schedule::Schedule;
use super::trigger::Trigger;
use super::weekday::WeekdaySet;
use crate::berlin;
use crate::berlin::LocalInstants;
use crate::time;
use crate::time::{CivilDate, TimeOfDay, Timestamp, Weekday};

verus! {

/// The day after another.
pub open spec fn day_after(d: Weekday) -> Weekday {
    match d {
        Weekday::Mon => Weekday::Tue,
        Weekday::Tue => Weekday::Wed,
        Weekday::Wed => Weekday::Thu,
        Weekday::Thu => Weekday::Fri,
        Weekday::Fri => Weekday::Sat,
        Weekday::Sat => Weekday::Sun,
        Weekday::Sun => Weekday::Mon,
    }
}

/// The days of the week follow one another, and every seventh day from the epoch
/// on is a Thursday.
pub proof fn law_weekdays_follow_one_another(days: int)
    ensures
        time::weekday_of(days + 1) == day_after(time::weekday_of(days)),
        time::weekday_of(days) is Thu <==> days % 7 == 0,
{
}

/// Messages may be sent on this day. Where no weekday is chosen, they may on all.
pub open spec fn chosen(days: WeekdaySet, day: int) -> bool {
    days@ == Set::<Weekday>::empty() || days@.contains(time::weekday_of(day))
}

/// The Berlin clock shows this day at an instant.
pub open spec fn is_today(now: Timestamp, day: int) -> bool {
    let secs = now.ticks as int / 2_000_000_000;
    day * 86_400 <= secs + berlin::offset_at(secs) < (day + 1) * 86_400
}

/// The Berlin clock shows so many seconds of the day at this instant. Of two such
/// instants it is the first, and where the clock jumps over them it is the instant
/// an hour later on the clock.
pub open spec fn comes_at(day: int, second: int, secs: int) -> bool {
    match berlin::instants_of(day * 86_400 + second) {
        LocalInstants::Single(t) => secs == t,
        LocalInstants::Fold(t, _) => secs == t,
        LocalInstants::Gap => match berlin::instants_of(day * 86_400 + second + 3_600) {
            LocalInstants::Single(t) => secs == t,
            _ => false,
        },
    }
}

/// A time of day comes on a day at this instant, in ticks.
pub open spec fn strikes(day: int, at: TimeOfDay, ticks: int) -> bool {
    exists|secs: int|
        #[trigger] comes_at(day, at.nanos as int / 1_000_000_000, secs) && ticks == secs
            * 2_000_000_000 + at.nanos as int % 1_000_000_000
}

proof fn lemma_today(now: Timestamp, today: int)
    requires
        is_today(now, today),
    ensures
        berlin::local_day_of(now.spec_secs()) == today,
{
}

proof fn lemma_strikes(day: int, at: TimeOfDay, ticks: int, now: Timestamp)
    requires
        strikes(day, at, ticks),
    ensures
        crate::schedule::trigger::calendar_instant(day, at, now) == ticks,
        i128::MIN < ticks < i128::MAX,
{
    let secs = choose|secs: int|
        #[trigger] comes_at(day, at.nanos as int / 1_000_000_000, secs) && ticks == secs
            * 2_000_000_000 + at.nanos as int % 1_000_000_000;
    assert(crate::schedule::trigger::local_at(day, at) == day * 86_400 + at.nanos as int / 1_000_000_000);
}

proof fn lemma_struck(day: int, at: TimeOfDay, now: Timestamp)
    requires
        crate::schedule::trigger::calendar_instant(day, at, now) > now.ticks,
    ensures
        strikes(day, at, crate::schedule::trigger::calendar_instant(day, at, now)),
{
    let ticks = crate::schedule::trigger::calendar_instant(day, at, now);
    let secs = (ticks - at.nanos as int % 1_000_000_000) / 2_000_000_000;
    assert(crate::schedule::trigger::local_at(day, at) == day * 86_400 + at.nanos as int / 1_000_000_000);
    assert(comes_at(day, at.nanos as int / 1_000_000_000, secs));
}

proof fn lemma_first_day(
    day: int,
    at: TimeOfDay,
    days: WeekdaySet,
    now: Timestamp,
    tries: nat,
    d: int,
    ticks: int,
)
    requires
        day <= d < day + tries,
        chosen(days, d),
        strikes(d, at, ticks),
        ticks > now.ticks,
    ensures
        exists|e: int, t: int|
            day <= e <= d && chosen(days, e) && #[trigger] strikes(e, at, t) && t > now.ticks
                && crate::schedule::trigger::calendar_from(day, at, days@, now, tries) == Some(t),
    decreases tries,
{
    lemma_strikes(d, at, ticks, now);
    if chosen(days, day) && crate::schedule::trigger::calendar_instant(day, at, now) > now.ticks {
        lemma_struck(day, at, now);
    } else {
        assert(day != d);
        lemma_first_day(day + 1, at, days, now, (tries - 1) as nat, d, ticks);
    }
}

/// No day is passed over: where a time of day is still to come on a day of the
/// coming week on which messages may be sent, the next message is due on that day
/// or on an earlier one on which they may be sent, at that time of day and after
/// the present.
pub proof fn law_calendars_pass_over_no_day(
    days: WeekdaySet,
    at: TimeOfDay,
    now: Timestamp,
    today: int,
    d: int,
    ticks: int,
)
    requires
        is_today(now, today),
        today <= d <= today + 7,
        chosen(days, d),
        strikes(d, at, ticks),
        ticks > now.ticks,
    ensures
        (Trigger::Calendar { days, at }).fires(now) is Some,
        ({
            let next = (Trigger::Calendar { days, at }).fires(now)->0;
            &&& next.ticks > now.ticks
            &&& exists|e: int|
                today <= e <= d && chosen(days, e) && #[trigger] strikes(e, at, next.ticks as int)
        }),
{
    lemma_today(now, today);
    lemma_first_day(today, at, days, now, 8, d, ticks);
    let (e, t) = choose|e: int, t: int|
        today <= e <= d && chosen(days, e) && #[trigger] strikes(e, at, t) && t > now.ticks
            && crate::schedule::trigger::calendar_from(today, at, days@, now, 8) == Some(t);
    lemma_strikes(e, at, t, now);
    let next = (Trigger::Calendar { days, at }).fires(now)->0;
    assert(next.ticks == t);
}

/// No fire is missed: the next message is due no later than the time of day on any
/// day of the coming week on which messages may be sent, where that is still to
/// come and the days before it have theirs before it.
pub proof fn law_calendars_miss_no_fire(
    days: WeekdaySet,
    at: TimeOfDay,
    now: Timestamp,
    today: int,
    d: int,
    ticks: int,
)
    requires
        is_today(now, today),
        today <= d <= today + 7,
        chosen(days, d),
        strikes(d, at, ticks),
        ticks > now.ticks,
        forall|e: int, t: int| today <= e <= d && #[trigger] strikes(e, at, t) ==> t <= ticks,
    ensures
        (Trigger::Calendar { days, at }).fires(now) is Some,
        now.ticks < (Trigger::Calendar { days, at }).fires(now)->0.ticks <= ticks,
{
    law_calendars_pass_over_no_day(days, at, now, today, d, ticks);
}

/// A time of day, in nanoseconds, lies in the part of the day from one bound on
/// and before the other, which may span midnight. Without both bounds every time
/// does.
pub open spec fn in_hours(nanos: int, from: Option<TimeOfDay>, to: Option<TimeOfDay>) -> bool {
    from is Some && to is Some ==> if from->0.nanos <= to->0.nanos {
        from->0.nanos <= nanos && nanos < to->0.nanos
    } else {
        !(to->0.nanos <= nanos && nanos < from->0.nanos)
    }
}

/// A part of the day begins with its first bound and is over with its second, and
/// what is not in it is the part from the second bound to the first. Between two
/// times in a part that does not span midnight all are in it.
pub proof fn law_hours(f: TimeOfDay, e: TimeOfDay, nanos: int, a: int, b: int)
    ensures
        f.nanos != e.nanos ==> crate::schedule::trigger::inside_window(f.nanos as int, Some(f), Some(e)),
        !crate::schedule::trigger::inside_window(e.nanos as int, Some(f), Some(e)),
        f.nanos != e.nanos ==> crate::schedule::trigger::inside_window(nanos, Some(f), Some(e))
            != crate::schedule::trigger::inside_window(nanos, Some(e), Some(f)),
        f.nanos == e.nanos ==> !crate::schedule::trigger::inside_window(nanos, Some(f), Some(e)),
        f.nanos <= e.nanos && crate::schedule::trigger::inside_window(a, Some(f), Some(e)) && a <= nanos <= b
            && crate::schedule::trigger::inside_window(b, Some(f), Some(e)) ==> crate::schedule::trigger::inside_window(
            nanos,
            Some(f),
            Some(e),
        ),
        crate::schedule::trigger::inside_window(nanos, Some(f), None),
        crate::schedule::trigger::inside_window(nanos, None, Some(e)),
        crate::schedule::trigger::inside_window(nanos, None, None),
        crate::schedule::trigger::inside_window(nanos, Some(f), Some(e)) == in_hours(nanos, Some(f), Some(e)),
{
}

/// A message may be sent at this second: the Berlin clock shows a day and a time
/// at which it may.
pub open spec fn open_second(
    days: WeekdaySet,
    from: Option<TimeOfDay>,
    to: Option<TimeOfDay>,
    secs: int,
) -> bool {
    let clock = secs + berlin::offset_at(secs);
    chosen(days, clock / 86_400) && in_hours((clock % 86_400) * 1_000_000_000, from, to)
}

proof fn lemma_open_second(
    days: WeekdaySet,
    from: Option<TimeOfDay>,
    to: Option<TimeOfDay>,
    secs: int,
)
    ensures
        crate::schedule::trigger::slot_allowed(secs, days@, from, to) == open_second(days, from, to, secs),
{
    let clock = secs + berlin::offset_at(secs);
    assert(crate::schedule::trigger::inside_window((clock % 86_400) * 1_000_000_000, from, to) == in_hours(
        (clock % 86_400) * 1_000_000_000,
        from,
        to,
    )) by {
        if from is Some && to is Some {
            law_hours(from->0, to->0, (clock % 86_400) * 1_000_000_000, 0, 0);
        }
    }
}

proof fn lemma_slot_found(
    secs: int,
    every: int,
    days: WeekdaySet,
    from: Option<TimeOfDay>,
    to: Option<TimeOfDay>,
    tries: nat,
    k: nat,
)
    requires
        every > 0,
        k <= tries,
        secs + k * every <= time::LATEST_SECS,
        crate::schedule::trigger::slot_allowed(secs + k * every, days@, from, to),
    ensures
        crate::schedule::trigger::first_slot(secs, every, days@, from, to, tries) is Some,
        crate::schedule::trigger::first_slot(secs, every, days@, from, to, tries)->0 <= secs + k * every,
    decreases tries,
{
    assert(k * every >= 0) by (nonlinear_arith)
        requires
            every > 0,
            k >= 0,
    ;
    if tries == 0 || crate::schedule::trigger::slot_allowed(secs, days@, from, to) {
    } else {
        if k == 0 {
            assert(k * every == 0);
        }
        assert((k - 1) * every + every == k * every) by (nonlinear_arith);
        lemma_slot_found(secs + every, every, days, from, to, (tries - 1) as nat, (k - 1) as nat);
    }
}

proof fn lemma_elapsed(now: Timestamp, start: int)
    requires
        !now.leap(),
        -1_000_000_000_000_000 < start < 1_000_000_000_000_000,
    ensures
        crate::schedule::trigger::day_elapsed(now, start) == if now.spec_secs() >= start {
            now.spec_secs() - start
        } else {
            0
        },
{
    let s = Timestamp { ticks: (start * time::TICKS_PER_SEC) as i128 };
    assert(s.ticks == start * 2_000_000_000);
    assert(s.spec_secs() == start && s.spec_frac() == 0);
}

/// No slot is missed: the slots of a day are so many seconds apart from its
/// beginning on. Where a message may be sent at a slot that is still to come, and
/// that is not too far off, the next message is due no later.
pub proof fn law_intervals_miss_no_slot(
    every: u64,
    days: WeekdaySet,
    active_from: Option<TimeOfDay>,
    active_to: Option<TimeOfDay>,
    now: Timestamp,
    today: int,
    start: int,
    k: nat,
)
    requires
        !now.leap(),
        is_today(now, today),
        comes_at(today, 0, start),
        -1_000_000_000_000_000 < start < 1_000_000_000_000_000,
        every > 0,
        k > 0,
        (start + k * every) * 2_000_000_000 > now.ticks,
        start + k * every <= 8_207_000_000_000,
        start + k * every <= start + 20_160 * every || start + k * every
            <= now.ticks as int / 2_000_000_000 + 20_160 * every,
        open_second(days, active_from, active_to, start + k * every),
    ensures
        (Trigger::Interval { every, days, active_from, active_to }).fires(now) is Some,
        (Trigger::Interval { every, days, active_from, active_to }).fires(now)->0.ticks <= (start
            + k * every) * 2_000_000_000,
{
    lemma_today(now, today);
    assert(today * 86_400 + 0 == today * 86_400);
    assert(today * 86_400 + 0 + 3_600 == today * 86_400 + 3_600);
    assert(crate::schedule::trigger::day_start(today) == Some(start));
    lemma_elapsed(now, start);
    let n = every as int;
    let elapsed = crate::schedule::trigger::day_elapsed(now, start);
    let q = elapsed / n;
    vstd::arithmetic::div_mod::lemma_fundamental_div_mod(elapsed, n);
    assert(0 <= elapsed % n < n) by (nonlinear_arith)
        requires
            n > 0,
    ;
    assert(q >= 0) by (nonlinear_arith)
        requires
            n > 0,
            elapsed >= 0,
            q == elapsed / n,
    ;
    let first = start + (q + 1) * n;
    let slot = start + k * n;
    assert(slot > now.spec_secs());
    assert(k >= q + 1) by (nonlinear_arith)
        requires
            k > 0,
            n > 0,
            elapsed == n * q + elapsed % n,
            0 <= elapsed % n < n,
            elapsed == 0 || k * n > elapsed,
    ;
    assert(k <= q + 20_160) by (nonlinear_arith)
        requires
            n > 0,
            elapsed == n * q + elapsed % n,
            0 <= elapsed % n < n,
            elapsed >= 0,
            q >= 0,
            k * n <= 20_160 * n || k * n <= elapsed + 20_160 * n,
    ;
    let j = (k - (q + 1)) as nat;
    assert((q + 1) * n + j * n == k * n) by (nonlinear_arith)
        requires
            j == k - (q + 1),
    ;
    lemma_open_second(days, active_from, active_to, slot);
    lemma_slot_found(first, n, days, active_from, active_to, 20_160, j);
    let t = crate::schedule::trigger::first_slot(first, n, days@, active_from, active_to, 20_160)->0;
    lemma_slots_come_later(first, n, days, active_from, active_to, 20_160);
    assert((q + 1) * n >= 0) by (nonlinear_arith)
        requires
            q >= 0,
            n > 0,
    ;
    assert(start <= t <= time::LATEST_SECS);
}

proof fn lemma_slots_come_later(
    secs: int,
    every: int,
    days: WeekdaySet,
    from: Option<TimeOfDay>,
    to: Option<TimeOfDay>,
    tries: nat,
)
    requires
        every > 0,
        crate::schedule::trigger::first_slot(secs, every, days@, from, to, tries) is Some,
    ensures
        secs <= crate::schedule::trigger::first_slot(secs, every, days@, from, to, tries)->0 <= time::LATEST_SECS,
        exists|k: nat|
            k <= tries && crate::schedule::trigger::first_slot(secs, every, days@, from, to, tries)->0 == secs
                + #[trigger] (k * every),
    decreases tries,
{
    if tries == 0 || crate::schedule::trigger::slot_allowed(secs, days@, from, to) {
        assert(0nat * every == 0);
        assert(secs + 0nat * every == secs);
    } else {
        lemma_slots_come_later(secs + every, every, days, from, to, (tries - 1) as nat);
        let k = choose|k: nat|
            k <= tries - 1 && crate::schedule::trigger::first_slot(
                secs + every,
                every,
                days@,
                from,
                to,
                (tries - 1) as nat,
            )->0 == secs + every + #[trigger] (k * every);
        assert((k + 1) * every == k * every + every) by (nonlinear_arith);
        let more = k + 1;
        assert(more * every == (k + 1) * every);
    }
}

/// A message of an interval is due at a slot: so many seconds times the interval
/// after the beginning of the day. It may be sent then, unless the search was given
/// up.
pub proof fn law_intervals_fire_at_slots(
    every: u64,
    days: WeekdaySet,
    active_from: Option<TimeOfDay>,
    active_to: Option<TimeOfDay>,
    now: Timestamp,
    today: int,
    start: int,
)
    requires
        !now.leap(),
        is_today(now, today),
        comes_at(today, 0, start),
        -1_000_000_000_000_000 < start < 1_000_000_000_000_000,
        (Trigger::Interval { every, days, active_from, active_to }).fires(now) is Some,
    ensures
        ({
            let next = (Trigger::Interval { every, days, active_from, active_to }).fires(now)->0;
            let secs = next.ticks as int / 2_000_000_000;
            &&& next.ticks as int % 2_000_000_000 == 0
            &&& next.ticks > now.ticks
            &&& every > 0
            &&& exists|k: nat| k > 0 && secs == start + #[trigger] (k * every)
            &&& open_second(days, active_from, active_to, secs) || secs
                > now.ticks as int / 2_000_000_000 + 20_160 * every
        }),
{
    lemma_today(now, today);
    assert(today * 86_400 + 0 == today * 86_400);
    assert(crate::schedule::trigger::day_start(today) == Some(start));
    lemma_elapsed(now, start);
    let n = every as int;
    let elapsed = crate::schedule::trigger::day_elapsed(now, start);
    let q = elapsed / n;
    vstd::arithmetic::div_mod::lemma_fundamental_div_mod(elapsed, n);
    assert(0 <= elapsed % n < n && q >= 0) by (nonlinear_arith)
        requires
            n > 0,
            elapsed >= 0,
            q == elapsed / n,
    ;
    let first = start + (q + 1) * n;
    assert((q + 1) * n == n * q + n) by (nonlinear_arith);
    lemma_slots_come_later(first, n, days, active_from, active_to, 20_160);
    crate::schedule::trigger::law_slots_are_allowed(first, n, days@, active_from, active_to, 20_160);
    let t = crate::schedule::trigger::first_slot(first, n, days@, active_from, active_to, 20_160)->0;
    lemma_open_second(days, active_from, active_to, t);
    let k = choose|k: nat| k <= 20_160 && t == first + #[trigger] (k * n);
    let all = (k + q + 1) as nat;
    assert(all * n == k * n + (q + 1) * n) by (nonlinear_arith)
        requires
            all == k + q + 1,
    ;
    assert(n * q >= 0) by (nonlinear_arith)
        requires
            n > 0,
            q >= 0,
    ;
    let next = (Trigger::Interval { every, days, active_from, active_to }).fires(now)->0;
    assert(next.ticks == t * 2_000_000_000);
    assert(t == start + all * every);
}

/// The instant of a second of a Berlin day is this one, and no other.
pub open spec fn only_at(day: CivilDate, second: int, secs: int) -> bool {
    berlin::instants_of(day.days * 86_400 + second) is Single && berlin::instants_of(
        day.days * 86_400 + second,
    )->Single_0 == secs
}

/// A message without a first and a last day is due when its trigger says so.
pub proof fn law_triggers_decide(s: Schedule, now: Timestamp)
    requires
        now.valid(),
        s.start_date is None,
        s.end_date is None,
    ensures
        match s.trigger.fires(now) {
            Some(next) => s.active_fire(now) == Some(Some(next)),
            None => s.active_fire(now) is None,
        },
{
}

/// From the beginning of the first day on, the first day does not matter any
/// more.
pub proof fn law_first_days_pass(s: Schedule, free: Schedule, now: Timestamp, start: int)
    requires
        s.start_date is Some,
        only_at(s.start_date->0, 0, start),
        start * 2_000_000_000 <= now.ticks,
        free == (Schedule { start_date: None, ..s }),
    ensures
        s.active_fire(now) == free.active_fire(now),
{
    assert((s.start_date->0).days * 86_400 + 0 == (s.start_date->0).days * 86_400);
}

/// Before the first day begins, it does not matter when the next message is looked
/// for, and it is the one that is due after the last nanosecond before the day.
pub proof fn law_messages_wait_for_the_first_day(
    s: Schedule,
    free: Schedule,
    now: Timestamp,
    start: int,
)
    requires
        s.start_date is Some,
        only_at(s.start_date->0, 0, start),
        now.ticks < start * 2_000_000_000,
        free == (Schedule { start_date: None, ..s }),
        -1_000_000_000_000_000 < start < 1_000_000_000_000_000,
    ensures
        s.active_fire(now) == free.active_fire(
            Timestamp { ticks: ((start - 1) * 2_000_000_000 + 999_999_999) as i128 },
        ),
{
    assert((s.start_date->0).days * 86_400 + 0 == (s.start_date->0).days * 86_400);
}

/// A message is due as if it had no last day, unless that would be after the last
/// second of its last day begins. Then it is never due again.
pub proof fn law_last_days_end_messages(s: Schedule, free: Schedule, now: Timestamp, end: int)
    requires
        s.end_date is Some,
        only_at(s.end_date->0, 86_399, end),
        free == (Schedule { end_date: None, ..s }),
    ensures
        match free.active_fire(now) {
            None => s.active_fire(now) is None,
            Some(None) => false,
            Some(Some(next)) => s.active_fire(now) == Some(
                if next.ticks <= end * 2_000_000_000 {
                    Some(next)
                } else {
                    None
                },
            ),
        },
{
}

/// Where no day of the coming week will do, a message is due at its time in seven
/// days.
pub proof fn law_weeks_without_a_fire(now: Timestamp, days: WeekdaySet, at: TimeOfDay)
    requires
        crate::schedule::trigger::calendar_from(
            berlin::local_day_of(now.spec_secs()),
            at,
            days@,
            now,
            8,
        ) is None,
    ensures
        ({
            let local = (berlin::local_day_of(now.spec_secs()) + 7) * 86_400 + at.nanos as int
                / 1_000_000_000;
            let t = crate::schedule::trigger::calendar_fire(now, days@, at);
            &&& berlin::instants_of(local) matches LocalInstants::Single(s) ==> t == s
                * 2_000_000_000 + at.nanos as int % 1_000_000_000
            &&& !(berlin::instants_of(local) is Single) ==> t == now.spec_plus(604_800).ticks
        }),
{
}

} // verus!
