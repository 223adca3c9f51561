use twitch_1337::berlin::{local_clock, local_date, local_day, local_secs, local_weekday};
use twitch_1337::decimal::Decimal;
use twitch_1337::json::{get, put, put_opt, text, text_list, Json};
use twitch_1337::text::chars::{
    is_ascii_alphanumeric, is_ascii_digit, is_ascii_letter, is_control, is_hex_digit,
    is_white_space, to_lower_char, to_upper_char,
};
use twitch_1337::text::number::{decimal_text, two_digit_text, unsigned_text};
use twitch_1337::text::order::{not_after, sort};
use twitch_1337::text::search::{after_prefix, before_suffix, has, replace_all, split, starts};
use twitch_1337::text::slice::{byte_len, eq_ignoring_case, is_blank, join, trim, trim_start};
use twitch_1337::text::table;
use twitch_1337::time::{
    floor_div, parse_rfc3339, CivilDate, TimeOfDay, Timestamp, Weekday,
};

#[test]
fn characters_are_classified_as_by_the_standard_library() {
    for c in '\0'..=char::MAX {
        assert_eq!(is_white_space(c), c.is_whitespace(), "{c:?}");
        assert_eq!(is_control(c), c.is_control(), "{c:?}");
        assert_eq!(is_ascii_digit(c), c.is_ascii_digit(), "{c:?}");
        assert_eq!(is_ascii_letter(c), c.is_ascii_alphabetic(), "{c:?}");
        assert_eq!(is_ascii_alphanumeric(c), c.is_ascii_alphanumeric(), "{c:?}");
        assert_eq!(is_hex_digit(c), c.is_ascii_hexdigit(), "{c:?}");
        assert_eq!(to_lower_char(c), c.to_ascii_lowercase(), "{c:?}");
        assert_eq!(to_upper_char(c), c.to_ascii_uppercase(), "{c:?}");
    }
}

#[test]
fn texts_are_trimmed_and_searched_as_by_the_standard_library() {
    let samples = ["", " ", "a", " a\u{a0}b\u{3000}", "aXbXc", "XX", "äöü X ß", "\tX\n"];
    for s in samples {
        assert_eq!(trim(s), s.trim());
        assert_eq!(trim_start(s), s.trim_start());
        assert_eq!(is_blank(s), s.trim().is_empty());
        assert_eq!(byte_len(s), s.len());
        assert_eq!(replace_all(s, "X", "yX"), s.replace("X", "yX"));
        assert_eq!(split(s, "X"), s.split("X").collect::<Vec<_>>());
        assert_eq!(starts(s, "a"), s.starts_with('a'));
        for t in samples {
            assert_eq!(has(s, t), s.contains(t), "{s:?} {t:?}");
            assert_eq!(after_prefix(s, t).as_deref(), s.strip_prefix(t));
            assert_eq!(before_suffix(s, t).as_deref(), s.strip_suffix(t));
            assert_eq!(not_after(s, t), s <= t);
            assert_eq!(eq_ignoring_case(s, t), s.eq_ignore_ascii_case(t));
        }
    }
    let v: Vec<String> = samples.iter().map(|s| s.to_string()).collect();
    let mut sorted = v.clone();
    sorted.sort();
    assert_eq!(join(&v, ", "), v.join(", "));
    assert_eq!(sort(v), sorted);
}

#[test]
fn numbers_are_written_in_decimal() {
    for n in [0i64, 7, -1, 10, 1_000_000, i64::MAX, i64::MIN] {
        assert_eq!(decimal_text(n), n.to_string());
    }
    assert_eq!(unsigned_text(u64::MAX), u64::MAX.to_string());
    assert_eq!(two_digit_text(3), "03");
    assert_eq!(two_digit_text(42), "42");
    for (micros, text) in [(0, "0"), (499_999, "0"), (500_000, "0"), (1_500_000, "2")] {
        assert_eq!(Decimal { micros }.to_whole_text(), text);
    }
    assert_eq!(Decimal { micros: -2_600_000 }.to_whole_text(), "-3");
    assert_eq!(Decimal::whole(-3), Decimal { micros: -3_000_000 });
    for micros in [-2_500_000i64, -400_000, 2_500_000, 280_499_999] {
        let d = Decimal { micros };
        assert_eq!(d.to_whole_text(), format!("{:.0}", micros as f64 / 1_000_000.0));
    }
}

#[test]
fn instants_are_read_and_written() {
    let t = parse_rfc3339("2026-04-18T12:00:00.5+02:00").unwrap();
    assert_eq!((t.secs(), t.frac()), (1_776_506_400, 500_000_000));
    assert_eq!(t.rfc3339(), "2026-04-18T10:00:00Z");
    assert_eq!(t.date_text(), "2026-04-18");
    assert_eq!(t.utc_clock(), "10:00");
    assert_eq!(t.secs(), 1_776_506_400);
    assert_eq!(t.plus_secs(-1).secs_since(t), -1);
    assert!(parse_rfc3339("2026-04-18 noon").is_none());
    assert_eq!(Timestamp::from_secs(-1).rfc3339(), "1969-12-31T23:59:59Z");
    assert!(!Timestamp { ticks: i128::MAX }.is_valid());
    assert_eq!(floor_div(-1, 60), -1);
    assert_eq!(CivilDate { days: 20_561 }.text(), "2026-04-18");
    assert_eq!(TimeOfDay::from_hms(24, 0, 0), None);
    assert_eq!(TimeOfDay::from_hms(1, 2, 3), Some(TimeOfDay { nanos: 3_723_000_000_000 }));
}

#[test]
fn leap_seconds_stay_in_their_minute() {
    let leap = parse_rfc3339("2016-12-31T23:59:60.25Z").unwrap();
    assert!(leap.is_valid());
    assert_eq!((leap.secs(), leap.frac()), (1_483_228_799, 1_250_000_000));
    assert_eq!(leap.utc_clock(), "23:59");
    assert_eq!(leap.date_text(), "2016-12-31");
    assert_eq!(leap.rfc3339(), "2016-12-31T23:59:60Z");
    assert_eq!(parse_rfc3339("2017-01-01T00:59:60.25+01:00"), Some(leap));

    // It comes after the second before it and before the next minute.
    let before = parse_rfc3339("2016-12-31T23:59:59.25Z").unwrap();
    let after = parse_rfc3339("2017-01-01T00:00:00Z").unwrap();
    assert!(before.ticks < leap.ticks && leap.ticks < after.ticks);

    // No other second can be followed by one.
    assert!(!Timestamp::from_parts(1_483_228_798, 1_250_000_000).is_valid());
    assert!(!Timestamp::from_parts(i64::MAX, 0).is_valid());
}

#[test]
fn spans_go_by_the_calendar_around_leap_seconds() {
    for (a, b) in [
        ("2016-12-31T23:59:60.25Z", "2016-12-31T23:59:59.75Z"),
        ("2016-12-31T23:59:60.25Z", "2017-01-01T00:00:00Z"),
        ("2016-12-31T23:59:60.25Z", "2016-12-31T10:00:00Z"),
        ("2016-12-31T23:59:60.25Z", "2016-12-31T23:59:60.75Z"),
        ("2015-06-30T12:59:60.5Z", "2015-06-30T12:00:00Z"),
        ("2015-06-30T12:59:60.5Z", "2015-06-29T13:30:00Z"),
        ("2026-04-18T10:00:00Z", "2026-04-18T09:00:00.5Z"),
    ] {
        let (s, t) = (parse_rfc3339(a).unwrap(), parse_rfc3339(b).unwrap());
        let x = chrono::DateTime::parse_from_rfc3339(a).unwrap();
        let y = chrono::DateTime::parse_from_rfc3339(b).unwrap();
        for (from, to, span) in [(t, s, x - y), (s, t, y - x)] {
            assert_eq!(Some(to.nanos_since(from)), span.num_nanoseconds().map(i128::from));
            assert_eq!(to.secs_since(from), span.num_seconds());
        }
        for secs in [-90_000, -60, -1, 0, 1, 60, 90_000] {
            let moved = x + chrono::TimeDelta::seconds(secs);
            assert_eq!(
                s.plus_secs(secs),
                Timestamp::from_parts(moved.timestamp(), moved.timestamp_subsec_nanos())
            );
        }
    }
    let leap = parse_rfc3339("2016-12-31T23:59:60.25Z").unwrap();
    assert_eq!(leap.plus_secs(1), parse_rfc3339("2017-01-01T00:00:00.25Z").unwrap());
    assert_eq!(leap.plus_secs(-1), parse_rfc3339("2016-12-31T23:59:59.25Z").unwrap());
}

#[test]
fn berlin_has_summer_time() {
    let winter = parse_rfc3339("2026-01-15T23:30:00Z").unwrap();
    assert_eq!(local_clock(winter), "00:30");
    assert_eq!(local_date(winter), "2026-01-16");
    assert_eq!(local_weekday(winter), Weekday::Fri);
    assert_eq!(Weekday::Fri.num_days_from_monday(), 4);
    let summer = parse_rfc3339("2026-07-15T21:59:00Z").unwrap();
    assert_eq!(local_clock(summer), "23:59");
    assert_eq!(local_date(summer), "2026-07-15");
    assert_eq!(local_secs(summer.secs()) - summer.secs(), 7_200);
    assert_eq!(local_day(winter), 20_469);
}

#[test]
fn members_of_objects_are_found() {
    let mut members = Vec::new();
    put(&mut members, "a", Json::Int(1));
    put(&mut members, "b", text("x"));
    put(&mut members, "a", Json::Int(2));
    put_opt(&mut members, "c", None);
    put_opt(&mut members, "d", Some("y"));
    let j = Json::Object(members);
    assert!(matches!(get(&j, "a"), Some(Json::Int(2))));
    assert!(get(&j, "c").is_none());
    assert!(matches!(get(&j, "d"), Some(Json::Text(s)) if s == "y"));
    assert!(get(&Json::Null, "a").is_none());
    let list = text_list(&vec!["p".to_string(), "q".to_string()]);
    assert!(matches!(list, Json::List(v) if v.len() == 2));
}

#[test]
fn tables_hold_each_name_once() {
    let mut entries: Vec<(String, u32)> = Vec::new();
    table::put(&mut entries, "a", 1);
    table::put(&mut entries, "b", 2);
    table::put(&mut entries, "a", 3);
    assert_eq!(entries, vec![("a".to_string(), 3), ("b".to_string(), 2)]);
    assert_eq!(table::position(&entries, "b"), Some(1));
    assert_eq!(table::position(&entries, "c"), None);
}
