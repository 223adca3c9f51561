use chrono::{Datelike, TimeZone, Timelike};
use chrono_tz::Europe::Berlin;
use twitch_1337::schedule::schedule::Schedule;
use twitch_1337::schedule::telemetry::{ScheduleRuntime, TelemetryStore};
use twitch_1337::schedule::trigger::{in_window, Trigger};
use twitch_1337::schedule::weekday::WeekdaySet;
use twitch_1337::time::{CivilDate, Moment, TimeOfDay, Timestamp, Weekday};

fn stamp<T: TimeZone>(t: chrono::DateTime<T>) -> Timestamp {
    Timestamp::from_parts(t.timestamp(), t.timestamp_subsec_nanos())
}

fn berlin(t: Timestamp) -> chrono::DateTime<chrono_tz::Tz> {
    chrono::DateTime::from_timestamp(t.secs(), 0).unwrap().with_timezone(&Berlin)
}

fn now_berlin(y: i32, mo: u32, d: u32, h: u32, mi: u32) -> Timestamp {
    stamp(Berlin.with_ymd_and_hms(y, mo, d, h, mi, 0).single().expect("valid"))
}

fn t(h: u32, m: u32) -> TimeOfDay {
    TimeOfDay::from_hms(h, m, 0).unwrap()
}

fn day(y: i32, mo: u32, d: u32) -> CivilDate {
    let epoch = chrono::NaiveDate::from_ymd_opt(1970, 1, 1).unwrap();
    let date = chrono::NaiveDate::from_ymd_opt(y, mo, d).unwrap();
    CivilDate { days: (date - epoch).num_days() }
}

fn set(days: &[Weekday]) -> WeekdaySet {
    WeekdaySet::from_days(&days.to_vec())
}

fn every(secs: u64) -> Trigger {
    Trigger::Interval {
        every: secs,
        days: WeekdaySet::default(),
        active_from: None,
        active_to: None,
    }
}

#[test]
fn empty_allows_every_day() {
    let ws = WeekdaySet::default();
    assert!(ws.allows(Weekday::Mon));
    assert!(ws.allows(Weekday::Sun));
}

#[test]
fn specific_days_only() {
    let mut ws = WeekdaySet::default();
    ws.insert(Weekday::Tue);
    ws.insert(Weekday::Thu);
    assert!(ws.allows(Weekday::Tue));
    assert!(!ws.allows(Weekday::Wed));
}

#[test]
fn days_are_listed_from_monday_and_once() {
    let ws = set(&[Weekday::Fri, Weekday::Mon, Weekday::Fri]);
    assert_eq!(ws.sorted_days(), vec![Weekday::Mon, Weekday::Fri]);
    assert_eq!(WeekdaySet::from_days(&ws.sorted_days()), ws);
    assert!(WeekdaySet::default().is_empty());
    assert!(!ws.is_empty());
    assert!(ws.contains(Weekday::Fri) && !ws.contains(Weekday::Sun));
}

#[test]
fn aligned_to_wall_clock() {
    let now = now_berlin(2026, 5, 28, 9, 17);
    let next = berlin(every(1800).next_fire_after(now));
    assert_eq!(next.hour(), 9);
    assert_eq!(next.minute(), 30);
}

#[test]
fn strictly_after_now_on_boundary() {
    let now = now_berlin(2026, 5, 28, 9, 30);
    let next = berlin(every(1800).next_fire_after(now));
    assert_eq!(next.hour(), 10);
    assert_eq!(next.minute(), 0);
}

#[test]
fn one_hour_interval_aligns_to_hour() {
    let now = now_berlin(2026, 5, 28, 9, 17);
    let next = berlin(every(3600).next_fire_after(now));
    assert_eq!(next.hour(), 10);
    assert_eq!(next.minute(), 0);
}

#[test]
fn in_window_helper() {
    assert!(in_window(t(10, 0), None, None));
    assert!(in_window(t(10, 0), Some(t(9, 0)), Some(t(11, 0))));
    assert!(!in_window(t(8, 0), Some(t(9, 0)), Some(t(11, 0))));
    // Wraps midnight 22:00–02:00:
    assert!(in_window(t(23, 0), Some(t(22, 0)), Some(t(2, 0))));
    assert!(in_window(t(1, 0), Some(t(22, 0)), Some(t(2, 0))));
    assert!(!in_window(t(10, 0), Some(t(22, 0)), Some(t(2, 0))));
}

#[test]
fn windows_begin_at_and_end_before_their_bounds() {
    assert!(in_window(t(9, 0), Some(t(9, 0)), Some(t(11, 0))));
    assert!(!in_window(t(11, 0), Some(t(9, 0)), Some(t(11, 0))));
    assert!(!in_window(t(9, 0), Some(t(9, 0)), Some(t(9, 0))));
    assert!(in_window(t(3, 0), Some(t(9, 0)), None));
}

fn hourly(from: TimeOfDay, to: TimeOfDay) -> Trigger {
    Trigger::Interval {
        every: 3600,
        days: WeekdaySet::default(),
        active_from: Some(from),
        active_to: Some(to),
    }
}

#[test]
fn advances_past_inactive_window() {
    let now = now_berlin(2026, 5, 28, 6, 30);
    let next = berlin(hourly(t(8, 0), t(18, 0)).next_fire_after(now));
    assert_eq!(next.hour(), 8);
    assert_eq!(next.minute(), 0);
}

#[test]
fn rolls_to_next_day_when_after_window() {
    let now = now_berlin(2026, 5, 28, 19, 30);
    let next = berlin(hourly(t(8, 0), t(18, 0)).next_fire_after(now));
    assert_eq!(next.day(), 29);
    assert_eq!(next.hour(), 8);
    assert_eq!(next.minute(), 0);
}

#[test]
fn midnight_spanning_window_keeps_firing() {
    let now = now_berlin(2026, 5, 28, 23, 30);
    let next = berlin(hourly(t(22, 0), t(2, 0)).next_fire_after(now));
    assert_eq!(next.day(), 29);
    assert_eq!(next.hour(), 0);
    assert_eq!(next.minute(), 0);
}

fn on_days(every: u64, days: &[Weekday]) -> Trigger {
    Trigger::Interval { every, days: set(days), active_from: None, active_to: None }
}

#[test]
fn days_filter_skips_non_eligible_weekdays() {
    let now = now_berlin(2026, 5, 28, 17, 30);
    let next = berlin(on_days(3600, &[Weekday::Tue, Weekday::Thu]).next_fire_after(now));
    assert_eq!(next.weekday(), chrono::Weekday::Thu);
    assert_eq!(next.day(), 28);
    assert_eq!(next.hour(), 18);
}

#[test]
fn days_filter_rolls_to_next_eligible_day() {
    let now = now_berlin(2026, 5, 29, 9, 0);
    let next = berlin(on_days(3600, &[Weekday::Tue, Weekday::Thu]).next_fire_after(now));
    assert_eq!(next.weekday(), chrono::Weekday::Tue);
}

#[test]
fn days_plus_window_combined() {
    let now = now_berlin(2026, 5, 29, 10, 0);
    let trig = Trigger::Interval {
        every: 1800,
        days: set(&[Weekday::Tue, Weekday::Thu]),
        active_from: Some(t(18, 0)),
        active_to: Some(t(23, 0)),
    };
    let next = berlin(trig.next_fire_after(now));
    assert_eq!(next.weekday(), chrono::Weekday::Tue);
    assert_eq!(next.hour(), 18);
    assert_eq!(next.minute(), 0);
}

fn daily(at: TimeOfDay) -> Trigger {
    Trigger::Calendar { days: WeekdaySet::default(), at }
}

#[test]
fn daily_today_at_in_future() {
    let now = now_berlin(2026, 5, 28, 9, 0);
    let next = berlin(daily(t(20, 0)).next_fire_after(now));
    assert_eq!(next.day(), 28);
    assert_eq!(next.hour(), 20);
}

#[test]
fn daily_today_at_in_past() {
    let now = now_berlin(2026, 5, 28, 21, 0);
    let next = berlin(daily(t(20, 0)).next_fire_after(now));
    assert_eq!(next.day(), 29);
    assert_eq!(next.hour(), 20);
}

#[test]
fn weekly_picks_today_if_eligible_and_future() {
    let now = now_berlin(2026, 5, 28, 19, 0);
    let trig = Trigger::Calendar { days: set(&[Weekday::Thu]), at: t(20, 0) };
    let next = berlin(trig.next_fire_after(now));
    assert_eq!(next.weekday(), chrono::Weekday::Thu);
    assert_eq!(next.day(), 28);
}

#[test]
fn weekly_skips_to_next_week_if_today_already_past() {
    let now = now_berlin(2026, 5, 28, 21, 0);
    let trig = Trigger::Calendar { days: set(&[Weekday::Thu]), at: t(20, 0) };
    let next = berlin(trig.next_fire_after(now));
    assert_eq!(next.weekday(), chrono::Weekday::Thu);
    assert_eq!(next.day(), 4);
    assert_eq!(next.month(), 6);
}

#[test]
fn weekly_multi_day() {
    let now = now_berlin(2026, 5, 26, 10, 0);
    let days = set(&[Weekday::Mon, Weekday::Wed, Weekday::Fri]);
    let next = berlin(Trigger::Calendar { days, at: t(9, 0) }.next_fire_after(now));
    assert_eq!(next.weekday(), chrono::Weekday::Wed);
}

#[test]
fn spring_forward_gap_picks_post_gap() {
    let now = now_berlin(2026, 3, 28, 23, 0);
    let next = daily(t(2, 30)).next_fire_after(now);
    assert!(next.ticks > now.ticks);
    assert_eq!(berlin(next).day(), 29);
    assert_eq!(berlin(next).hour(), 3);
}

#[test]
fn fall_back_picks_first_occurrence() {
    let now = now_berlin(2026, 10, 24, 23, 0);
    let next = daily(t(2, 30)).next_fire_after(now);
    assert!(next.ticks > now.ticks);
    assert_eq!(berlin(next).day(), 25);
    assert_eq!(next, Timestamp::from_secs(1_792_888_200));
}

#[test]
fn slots_of_a_day_with_the_clocks_set_forward_are_counted_from_midnight() {
    // The day has no hour from two to three: the third slot of an hour is at four.
    let now = now_berlin(2026, 3, 29, 1, 30);
    let next = berlin(every(3600).next_fire_after(now));
    assert_eq!(next.hour(), 3);
    let next = berlin(every(7200).next_fire_after(now));
    assert_eq!(next.hour(), 3);
    let next = berlin(every(3 * 3600).next_fire_after(now));
    assert_eq!(next.hour(), 4);
}

#[test]
fn triggers_that_never_fire_are_told_apart() {
    let now = now_berlin(2026, 5, 28, 9, 0);
    assert_eq!(every(0).checked_next_fire_after(now), None);
    assert_eq!(every(u64::MAX).checked_next_fire_after(now), None);
    assert!(every(1800).checked_next_fire_after(now).is_some());
    // A window that holds no slot is given up after two weeks of minutes.
    let never = Trigger::Interval {
        every: 3600,
        days: WeekdaySet::default(),
        active_from: Some(t(0, 30)),
        active_to: Some(t(0, 40)),
    };
    let given_up = never.next_fire_after(now);
    assert_eq!(given_up.nanos_since(now), (20_160 + 1) * 3600 * 1_000_000_000);
}

fn ok() -> Schedule {
    Schedule {
        name: "noon".into(),
        message: "hi".into(),
        trigger: every(3600),
        start_date: None,
        end_date: None,
        enabled: true,
    }
}

#[test]
fn ok_schedule_validates() {
    assert!(ok().validate("schedules[0]").is_empty());
}

#[test]
fn blank_name_rejected() {
    let mut s = ok();
    s.name = "  ".into();
    let errs = s.validate("schedules[0]");
    assert!(errs.iter().any(|e| e.field == "schedules[0].name"));
}

#[test]
fn name_with_slash_rejected() {
    let mut s = ok();
    s.name = "a/b".into();
    let errs = s.validate("schedules[0]");
    assert!(errs.iter().any(|e| e.field == "schedules[0].name"));
}

#[test]
fn interval_below_one_minute_rejected() {
    let mut s = ok();
    s.trigger = every(30);
    let errs = s.validate("schedules[0]");
    assert!(errs.iter().any(|e| e.field == "schedules[0].trigger.every"));
}

#[test]
fn orphan_active_from_rejected() {
    let mut s = ok();
    s.trigger = Trigger::Interval {
        every: 3600,
        days: WeekdaySet::default(),
        active_from: Some(t(8, 0)),
        active_to: None,
    };
    let errs = s.validate("schedules[0]");
    assert!(errs.iter().any(|e| e.field == "schedules[0].trigger.active_to"));
}

#[test]
fn end_before_start_rejected() {
    let mut s = ok();
    s.start_date = Some(day(2026, 6, 1));
    s.end_date = Some(day(2026, 5, 1));
    let errs = s.validate("schedules[0]");
    assert!(errs.iter().any(|e| e.field == "schedules[0].end_date"));
}

#[test]
fn errors_come_in_order_and_say_what_is_wrong() {
    let s = Schedule {
        name: " \u{7}'\n".into(),
        message: "\t".into(),
        trigger: Trigger::Interval {
            every: 5,
            days: WeekdaySet::default(),
            active_from: None,
            active_to: Some(t(8, 0)),
        },
        start_date: Some(day(2026, 6, 1)),
        end_date: Some(day(2026, 5, 1)),
        enabled: true,
    };
    let shown: Vec<(String, String)> =
        s.validate("p").into_iter().map(|e| (e.field, e.message)).collect();
    let bad: Vec<char> = s.name.chars().collect();
    let expected: Vec<(String, String)> = vec![
        (
            "p.name".to_string(),
            format!(
                "must not contain URL-reserved, whitespace, quote, or control characters {bad:?}"
            ),
        ),
        ("p.message".to_string(), "must not be blank".to_string()),
        ("p.message".to_string(), "must not contain control characters".to_string()),
        ("p.trigger.every".to_string(), "must be ≥ 1 minute (got 5s)".to_string()),
        (
            "p.trigger.active_from".to_string(),
            "must be set when active_to is set".to_string(),
        ),
        (
            "p.end_date".to_string(),
            "must be ≥ start_date (start=2026-06-01, end=2026-05-01)".to_string(),
        ),
    ];
    assert_eq!(shown, expected);
}

#[test]
fn reserved_characters_are_shown_as_for_debugging() {
    for n in 0u32..=0x2ff {
        let c = match char::from_u32(n) {
            Some(c) => c,
            None => continue,
        };
        let reserved = "/?#%&+= '\"".contains(c) || c.is_control();
        let mut s = ok();
        s.name = format!("x{c}");
        let errs = s.validate("p");
        assert_eq!(!errs.is_empty(), reserved, "{n:x}");
        if reserved {
            let shown: Vec<char> = vec![c];
            assert!(errs[0].message.ends_with(&format!("characters {shown:?}")), "{n:x}");
        }
    }
}

fn daily_at(h: u32, m: u32) -> Schedule {
    let mut s = ok();
    s.trigger = daily(t(h, m));
    s
}

#[test]
fn skips_before_start_date() {
    let mut s = daily_at(9, 0);
    s.start_date = Some(day(2026, 6, 1));
    let now = now_berlin(2026, 5, 28, 9, 0);
    let next = s.next_active_fire(now).expect("Some");
    assert!(
        berlin(next).date_naive() >= chrono::NaiveDate::from_ymd_opt(2026, 6, 1).unwrap()
    );
}

#[test]
fn none_after_end_date() {
    let mut s = daily_at(9, 0);
    s.end_date = Some(day(2026, 5, 28));
    let now = now_berlin(2026, 5, 28, 23, 30);
    assert!(s.next_active_fire(now).is_none());
}

#[test]
fn includes_end_date_full_day() {
    let mut s = daily_at(9, 0);
    s.end_date = Some(day(2026, 5, 28));
    let now = now_berlin(2026, 5, 28, 8, 0);
    let next = berlin(s.next_active_fire(now).expect("Some"));
    assert_eq!(next.day(), 28);
    assert_eq!(next.hour(), 9);
}

#[test]
fn first_days_begin_at_midnight() {
    let mut s = daily_at(0, 0);
    s.start_date = Some(day(2026, 6, 1));
    let now = now_berlin(2026, 5, 28, 9, 0);
    assert_eq!(s.next_active_fire(now), Some(now_berlin(2026, 6, 1, 0, 0)));
    assert_eq!(s.checked_next_active_fire(now), Some(Some(now_berlin(2026, 6, 1, 0, 0))));
    // On this day Berlin took up standard time at midnight, and skipped minutes.
    s.start_date = Some(day(1893, 4, 1));
    assert_eq!(s.checked_next_active_fire(now), None);
}

#[test]
fn no_message_comes_a_moment_early() {
    let mut s = ok();
    s.trigger = daily(TimeOfDay { nanos: 86_399_500_000_000 });
    s.start_date = Some(day(2026, 6, 1));
    let next = s.next_active_fire(now_berlin(2026, 5, 28, 9, 0)).unwrap();
    assert_eq!(next.nanos_since(now_berlin(2026, 6, 2, 0, 0)), -500_000_000);
}

fn at_moment(secs: u64) -> Moment {
    Moment { nanos: secs * 1_000_000_000 }
}

#[test]
fn record_fire_increments_counter() {
    let mut s = TelemetryStore::open(Vec::new(), at_moment(0));
    let now = stamp(chrono::Utc::now());
    s.record_fire("a", now, at_moment(1));
    s.record_fire("a", now, at_moment(1));
    let r = s.get("a").expect("present");
    assert_eq!(r.fires_today, 2);
    assert_eq!(r.last_fired_at, Some(now));
}

#[test]
fn rollover_resets_fires_today() {
    let mut s = TelemetryStore::open(Vec::new(), at_moment(0));
    let day1 = stamp(chrono::Utc.with_ymd_and_hms(2026, 5, 28, 12, 0, 0).single().unwrap());
    let day2 = stamp(chrono::Utc.with_ymd_and_hms(2026, 5, 29, 12, 0, 0).single().unwrap());
    s.record_fire("a", day1, at_moment(0));
    s.record_fire("a", day1, at_moment(0));
    s.record_fire("a", day2, at_moment(0));
    let r = s.get("a").expect("present");
    assert_eq!(r.fires_today, 1);
    assert_eq!(r.day_anchor, Some(day(2026, 5, 29)));
}

#[test]
fn reopen_restores_state() {
    let mut s = TelemetryStore::open(Vec::new(), at_moment(0));
    s.record_fire("a", stamp(chrono::Utc::now()), at_moment(0));
    let before = s.get("a");
    let s2 = TelemetryStore::open(s.snapshot(), at_moment(9));
    assert_eq!(s2.get("a"), before);
    assert!(s2.get("b").is_none());
    assert!(!s2.is_dirty());
}

#[test]
fn telemetry_is_written_now_and_then() {
    let at = stamp(chrono::Utc.with_ymd_and_hms(2026, 5, 28, 22, 0, 0).single().unwrap());
    let mut s = TelemetryStore::open(Vec::new(), at_moment(0));
    assert!(!s.record_fire("a", at, at_moment(4)));
    assert!(s.is_dirty());
    assert!(s.record_fire("b", at, at_moment(5)));
    s.flushed(at_moment(5));
    assert!(!s.is_dirty());
    assert!(!s.record_fire("b", at, at_moment(6)));
    // Ten at night in UTC is the next day in Berlin.
    assert_eq!(s.get("b").unwrap().day_anchor, Some(day(2026, 5, 29)));
    assert_eq!(s.get("a").unwrap().fires_today, 1);
    assert_eq!(s.get("b").unwrap().fires_today, 2);
}

#[test]
fn counts_saturate_and_roll_over() {
    let mut r = ScheduleRuntime {
        last_fired_at: None,
        fires_today: u32::MAX,
        day_anchor: Some(day(2026, 5, 28)),
    };
    let at = stamp(chrono::Utc.with_ymd_and_hms(2026, 5, 28, 12, 0, 0).single().unwrap());
    let mut s = TelemetryStore::open(vec![("a".to_string(), r)], at_moment(0));
    s.record_fire("a", at, at_moment(0));
    assert_eq!(s.get("a").unwrap().fires_today, u32::MAX);
    assert!(!r.maybe_rollover(day(2026, 5, 28)));
    assert!(r.maybe_rollover(day(2026, 5, 29)));
    assert_eq!(r.fires_today, 0);
}
