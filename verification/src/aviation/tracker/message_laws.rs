//! What the chat messages about tracked flights say.

use vstd::prelude::*;

use super::advance;
use super::advance::EmitModel;
use super::commands;
use super::{FlightModel, FlightPhase};
use crate::decimal::Decimal;
use crate::text::{chars, number, search, slice};
use crate::time::Timestamp;

verus! {

/// A part of a text that stands at a place is held by the text.
proof fn lemma_word(text: Seq<char>, word: Seq<char>, at: int)
    requires
        0 <= at,
        at + word.len() <= text.len(),
        text.subrange(at, at + word.len()) == word,
    ensures
        search::contains(text, word),
{
    assert(search::occurs_at(text, word, at));
}

/// A name begins with how users know the flight, and tells type and route where they
/// are known.
#[verifier::spinoff_prover]
#[verifier::rlimit(60)]
pub proof fn law_names(f: FlightModel)
    ensures
        f.callsign is Some ==> f.callsign->0.is_prefix_of(f.prefix()),
        f.callsign is None ==> f.identifier.text().is_prefix_of(f.prefix()),
        f.aircraft_type is Some ==> search::contains(
            f.prefix(),
            " ("@ + f.aircraft_type->0 + ")"@,
        ),
        f.route is Some ==> (" "@ + (f.route->0).0 + "\u{2192}"@ + (f.route->0).1).is_suffix_of(
            f.prefix(),
        ),
        f.route is None && f.aircraft_type is None ==> f.prefix() == f.label(),
{
    let r = super::format::route_suffix(f.route);
    if f.aircraft_type is Some {
        lemma_four(f.label(), " ("@, f.aircraft_type->0, ")"@, r);
    }
    if f.route is Some {
        lemma_three(" "@, (f.route->0).0, "\u{2192}"@, (f.route->0).1);
    } else {
        assert(r =~= Seq::<char>::empty());
        assert(f.label() + r =~= f.label());
    }
}

#[verifier::spinoff_prover]
#[verifier::rlimit(60)]
proof fn lemma_four(a: Seq<char>, b: Seq<char>, c: Seq<char>, d: Seq<char>, e: Seq<char>)
    ensures
        search::contains(a + b + c + d + e, b + c + d),
        a.is_prefix_of(a + b + c + d + e),
{
    search::lemma_holds(a, b + c + d, e);
    assert(a + (b + c + d) + e =~= a + b + c + d + e);
}

#[verifier::spinoff_prover]
#[verifier::rlimit(60)]
proof fn lemma_three(a: Seq<char>, b: Seq<char>, c: Seq<char>, d: Seq<char>)
    ensures
        a + (b + c + d) == a + b + c + d,
{
    assert(a + (b + c + d) =~= a + b + c + d);
}

/// Every message tells which flight it is about.
#[verifier::spinoff_prover]
#[verifier::rlimit(60)]
pub proof fn law_messages_name_their_flight(f: FlightModel, e: EmitModel, now: Timestamp)
    ensures
        search::contains(advance::emit_text(f, e, now), f.prefix()),
{
    let p = f.prefix();
    let text = advance::emit_text(f, e, now);
    match e {
        EmitModel::SquawkEmergency { code, meaning } => {
            let rest = " squawkt "@ + code + "! ("@ + meaning + ")"@;
            search::lemma_holds("\u{26a0} "@, p, rest);
            assert("\u{26a0} "@ + p + rest =~= text);
        },
        EmitModel::PossibleDivert => {
            search::lemma_holds("\u{26a0} "@, p, " scheint zu diverten!"@);
        },
        EmitModel::TrackingLost => {
            search::lemma_holds(
                "Tracking lost: "@,
                p,
                " | Status: automatisch entfernt | Grund: kein ADS-B Signal mehr"@,
            );
        },
        EmitModel::PendingExpired => {
            search::lemma_holds(
                "Tracking automatisch entfernt: "@,
                p,
                " | Status: nicht erschienen | Grund: nie im ADS-B gesehen"@,
            );
        },
        _ => {
            assert(p.is_prefix_of(text));
            assert(text.subrange(0, p.len() as int) =~= p);
            lemma_word(text, p, 0);
        },
    }
}

/// Each message says what happened.
#[verifier::spinoff_prover]
#[verifier::rlimit(60)]
pub proof fn law_messages_say_what_happened(f: FlightModel, now: Timestamp)
    ensures
        search::contains(advance::emit_text(f, EmitModel::AdsbVisible, now), "sichtbar"@),
        search::contains(advance::emit_text(f, EmitModel::Takeoff, now), "gestartet"@),
        search::contains(advance::emit_text(f, EmitModel::Descent, now), "Descent"@),
        search::contains(advance::emit_text(f, EmitModel::Approach, now), "Approach"@),
        search::contains(advance::emit_text(f, EmitModel::PossibleDivert, now), "diverten"@),
        search::contains(advance::emit_text(f, EmitModel::TrackingLost, now), "Tracking lost"@),
        search::contains(
            advance::emit_text(f, EmitModel::PendingExpired, now),
            "nicht erschienen"@,
        ),
{
    let none = Seq::<char>::empty();
    let p = f.prefix();
    {
        let lit = " ist jetzt im ADS-B sichtbar"@;
        reveal_strlit(" ist jetzt im ADS-B sichtbar");
        reveal_strlit("sichtbar");
        assert(lit.subrange(20, 28) =~= "sichtbar"@);
        lemma_word(lit, "sichtbar"@, 20);
        search::lemma_holds_more(p, lit, none, "sichtbar"@);
        assert(p + lit + none =~= advance::emit_text(f, EmitModel::AdsbVisible, now));
    }
    {
        let lit = " ist gestartet! \u{2708}"@;
        reveal_strlit(" ist gestartet! \u{2708}");
        reveal_strlit("gestartet");
        assert(lit.subrange(5, 14) =~= "gestartet"@);
        lemma_word(lit, "gestartet"@, 5);
        search::lemma_holds_more(p, lit, none, "gestartet"@);
        assert(p + lit + none =~= advance::emit_text(f, EmitModel::Takeoff, now));
    }
    {
        let lit = " hat Descent eingeleitet"@;
        reveal_strlit(" hat Descent eingeleitet");
        reveal_strlit("Descent");
        assert(lit.subrange(5, 12) =~= "Descent"@);
        lemma_word(lit, "Descent"@, 5);
        search::lemma_holds_more(p, lit, none, "Descent"@);
        assert(p + lit + none =~= advance::emit_text(f, EmitModel::Descent, now));
    }
    {
        let lit = " ist im Approach"@;
        reveal_strlit(" ist im Approach");
        reveal_strlit("Approach");
        assert(lit.subrange(8, 16) =~= "Approach"@);
        lemma_word(lit, "Approach"@, 8);
        search::lemma_holds_more(p, lit, none, "Approach"@);
        assert(p + lit + none =~= advance::emit_text(f, EmitModel::Approach, now));
    }
    {
        let lit = " scheint zu diverten!"@;
        reveal_strlit(" scheint zu diverten!");
        reveal_strlit("diverten");
        assert(lit.subrange(12, 20) =~= "diverten"@);
        lemma_word(lit, "diverten"@, 12);
        search::lemma_holds_more("\u{26a0} "@ + p, lit, none, "diverten"@);
        assert("\u{26a0} "@ + p + lit + none =~= advance::emit_text(
            f,
            EmitModel::PossibleDivert,
            now,
        ));
    }
    {
        let lit = "Tracking lost: "@;
        reveal_strlit("Tracking lost: ");
        reveal_strlit("Tracking lost");
        assert(lit.subrange(0, 13) =~= "Tracking lost"@);
        lemma_word(lit, "Tracking lost"@, 0);
        let rest = p + " | Status: automatisch entfernt | Grund: kein ADS-B Signal mehr"@;
        search::lemma_holds_more(none, lit, rest, "Tracking lost"@);
        assert(none + lit + rest =~= advance::emit_text(f, EmitModel::TrackingLost, now));
    }
    {
        let lit = " | Status: nicht erschienen | Grund: nie im ADS-B gesehen"@;
        reveal_strlit(" | Status: nicht erschienen | Grund: nie im ADS-B gesehen");
        reveal_strlit("nicht erschienen");
        assert(lit.subrange(11, 27) =~= "nicht erschienen"@);
        lemma_word(lit, "nicht erschienen"@, 11);
        search::lemma_holds_more(
            "Tracking automatisch entfernt: "@ + p,
            lit,
            none,
            "nicht erschienen"@,
        );
        assert("Tracking automatisch entfernt: "@ + p + lit + none =~= advance::emit_text(
            f,
            EmitModel::PendingExpired,
            now,
        ));
    }
}

/// A span of less than an hour is shown in minutes, a longer one in hours and two
/// digits of minutes. Seconds are dropped.
pub proof fn law_spans(hours: nat, minutes: nat, seconds: nat)
    requires
        minutes < 60,
        seconds < 60,
    ensures
        hours == 0 ==> super::format::span_text((minutes * 60 + seconds) as int) == number::digits(
            minutes,
        ) + "m"@,
        hours > 0 ==> super::format::span_text((hours * 3600 + minutes * 60 + seconds) as int)
            == number::digits(hours) + "h"@ + seq![
            number::digit(minutes as int / 10),
            number::digit(minutes as int % 10),
        ] + "m"@,
{
    let secs = (hours * 3600 + minutes * 60 + seconds) as int;
    assert(secs / 3600 == hours);
    assert(secs / 60 == hours * 60 + minutes);
    assert((secs / 60) % 60 == minutes);
    reveal_with_fuel(number::digits, 3);
    assert(number::two_digits(minutes) =~= seq![
        number::digit(minutes as int / 10),
        number::digit(minutes as int % 10),
    ]);
    let short = (minutes * 60 + seconds) as int;
    assert(short / 60 == minutes);
}

/// A landing is announced with the time since the takeoff, in hours and minutes.
#[verifier::spinoff_prover]
#[verifier::rlimit(60)]
pub proof fn law_landings_tell_the_flight_time(
    f: FlightModel,
    takeoff: Timestamp,
    now: Timestamp,
    hours: nat,
    minutes: nat,
    rest: nat,
)
    requires
        hours > 0,
        minutes < 60,
        rest < 60_000_000_000,
        now.spec_since(takeoff) == (hours * 3600 + minutes * 60) * 1_000_000_000 + rest,
    ensures
        advance::emit_text(f, EmitModel::Landing { takeoff_at: Some(takeoff) }, now) == f.prefix()
            + " ist gelandet! Flugzeit: "@ + (number::digits(hours) + "h"@ + seq![
            number::digit(minutes as int / 10),
            number::digit(minutes as int % 10),
        ] + "m"@),
{
    let seconds = rest / 1_000_000_000;
    assert(crate::time::whole_seconds(now.spec_since(takeoff)) == hours * 3600 + minutes * 60
        + seconds);
    law_spans(hours, minutes, seconds);
}

/// A landing whose takeoff nobody saw is announced without a flight time.
#[verifier::spinoff_prover]
#[verifier::rlimit(60)]
pub proof fn law_unseen_takeoffs(f: FlightModel, now: Timestamp)
    ensures
        search::contains(
            advance::emit_text(f, EmitModel::Landing { takeoff_at: None }, now),
            "gelandet! Flugzeit: unbekannt"@,
        ),
{
    let none = Seq::<char>::empty();
    let lit = " ist gelandet! Flugzeit: unbekannt (Takeoff nicht beobachtet)"@;
    let word = "gelandet! Flugzeit: unbekannt"@;
    reveal_strlit(" ist gelandet! Flugzeit: unbekannt (Takeoff nicht beobachtet)");
    reveal_strlit("gelandet! Flugzeit: unbekannt");
    assert(lit.subrange(5, 34) =~= word);
    lemma_word(lit, word, 5);
    search::lemma_holds_more(f.prefix(), lit, none, word);
    assert(f.prefix() + lit + none =~= advance::emit_text(
        f,
        EmitModel::Landing { takeoff_at: None },
        now,
    ));
}

/// Altitudes from a thousand feet on are shown as flight levels, in hundreds of feet,
/// and lower ones in feet.
pub proof fn law_altitudes(ft: i64, level: nat)
    ensures
        ft >= 1_000 && level * 100 <= ft < (level + 1) * 100 ==> super::format::altitude_text(
            Some(ft),
        ) == "FL"@ + number::digits(level),
        0 <= ft < 1_000 ==> super::format::altitude_text(Some(ft)) == number::digits(ft as nat)
            + "ft"@,
        ft < 0 ==> super::format::altitude_text(Some(ft)) == seq!['-'] + number::digits(
            (-ft) as nat,
        ) + "ft"@,
        super::format::altitude_text(None) == "?"@,
{
}

/// The message about the cruise tells the altitude.
#[verifier::spinoff_prover]
#[verifier::rlimit(60)]
pub proof fn law_cruises_tell_the_altitude(f: FlightModel, now: Timestamp, ft: i64, level: nat)
    requires
        f.altitude_ft == Some(ft),
        ft >= 1_000,
        level * 100 <= ft < (level + 1) * 100,
    ensures
        (" cruist auf FL"@ + number::digits(level)).is_suffix_of(
            advance::emit_text(f, EmitModel::Cruise, now),
        ),
{
    reveal_strlit(" cruist auf FL");
    reveal_strlit(" cruist auf ");
    reveal_strlit("FL");
    assert(" cruist auf FL"@ =~= " cruist auf "@ + "FL"@);
    law_altitudes(ft, level);
    assert(advance::emit_text(f, EmitModel::Cruise, now) =~= f.prefix() + (" cruist auf FL"@
        + number::digits(level)));
}

/// The message about an emergency tells the code and what it means.
#[verifier::spinoff_prover]
#[verifier::rlimit(60)]
pub proof fn law_emergencies_tell_the_code(
    f: FlightModel,
    code: Seq<char>,
    meaning: Seq<char>,
    now: Timestamp,
)
    ensures
        (" squawkt "@ + code + "! ("@ + meaning + ")"@).is_suffix_of(
            advance::emit_text(f, EmitModel::SquawkEmergency { code, meaning }, now),
        ),
{
    let end = " squawkt "@ + code + "! ("@ + meaning + ")"@;
    assert(advance::emit_text(f, EmitModel::SquawkEmergency { code, meaning }, now) =~= (
    "\u{26a0} "@ + f.prefix()) + end);
}

/// The status of a flight shows its phase, altitude, speed and route, each behind its
/// own label.
#[verifier::spinoff_prover]
#[verifier::rlimit(60)]
pub proof fn law_statuses_show_the_flight(f: FlightModel, now: Timestamp)
    requires
        !(f.target_confirmation is AircraftVisible),
    ensures
        search::contains(
            super::format::status_text(f, now),
            " | Phase: "@ + f.phase.name() + " | Höhe: "@ + super::format::altitude_text(
                f.altitude_ft,
            ) + " | Geschwindigkeit: "@,
        ),
        search::contains(
            super::format::status_text(f, now),
            " | Route: "@ + (if f.route is Some {
                (f.route->0).0 + "\u{2192}"@ + (f.route->0).1
            } else {
                "?"@
            }) + " | Letzte Sichtung: "@,
        ),
        f.squawk is Some ==> search::contains(
            super::format::status_text(f, now),
            " | Squawk "@ + f.squawk->0 + " | Status: seit "@,
        ),
        f.last_seen is None ==> search::contains(
            super::format::status_text(f, now),
            " | Letzte Sichtung: "@ + "nie"@,
        ),
        f.last_seen is Some ==> search::contains(
            super::format::status_text(f, now),
            " | Letzte Sichtung: "@ + "vor "@ + super::format::elapsed_text(f.last_seen->0, now),
        ),
        search::contains(
            super::format::status_text(f, now),
            " | Status: seit "@ + super::format::elapsed_text(f.tracked_at, now) + " getrackt"@,
        ),
{
    let speed = super::format::or_text(
        super::format::speed_text(f.ground_speed_kts),
        "?"@,
    );
    let squawk = super::format::or_text(
        super::format::labelled(" | Squawk "@, f.squawk),
        Seq::empty(),
    );
    let seen = super::format::last_seen_text(f, now);
    lemma_status(
        f.prefix(),
        " | Phase: "@,
        f.phase.name(),
        " | Höhe: "@,
        super::format::altitude_text(f.altitude_ft),
        " | Geschwindigkeit: "@,
        speed,
        " | Route: "@,
        super::format::route_text(f.route),
        " | Letzte Sichtung: "@,
        seen,
        squawk,
        " | Status: seit "@,
        super::format::elapsed_text(f.tracked_at, now),
        " getrackt"@,
        super::format::link_suffix(f.hex),
    );
    if f.last_seen is Some {
        let t = super::format::elapsed_text(f.last_seen->0, now);
        assert(" | Letzte Sichtung: "@ + ("vor "@ + t) =~= " | Letzte Sichtung: "@ + "vor "@ + t);
    }
}

/// The parts of a status stand behind one another.
#[verifier::spinoff_prover]
#[verifier::rlimit(60)]
proof fn lemma_status(
    p: Seq<char>,
    a: Seq<char>,
    phase: Seq<char>,
    b: Seq<char>,
    height: Seq<char>,
    c: Seq<char>,
    speed: Seq<char>,
    d: Seq<char>,
    route: Seq<char>,
    e: Seq<char>,
    seen: Seq<char>,
    squawk: Seq<char>,
    g: Seq<char>,
    since: Seq<char>,
    h: Seq<char>,
    link: Seq<char>,
)
    ensures
        ({
            let whole = p + a + phase + b + height + c + speed + d + route + e + seen + squawk + g
                + since + h + link;
            &&& search::contains(whole, a + phase + b + height + c)
            &&& search::contains(whole, d + route + e)
            &&& search::contains(whole, e + seen)
            &&& search::contains(whole, squawk + g)
            &&& search::contains(whole, g + since + h)
        }),
{
    let one = p + a + phase + b + height + c;
    let n1 = a + phase + b + height + c;
    lemma_five_end(p, a, phase, b, height, c);
    let s1 = one + speed;
    let s2 = s1 + d;
    let s3 = s2 + route;
    let s4 = s3 + e;
    let s5 = s4 + seen;
    let s6 = s5 + squawk;
    let s7 = s6 + g;
    let s8 = s7 + since;
    let s9 = s8 + h;
    lemma_step(one, speed, n1);
    lemma_step(s1, d, n1);
    lemma_step(s2, route, n1);
    lemma_step(s3, e, n1);
    lemma_step(s4, seen, n1);
    lemma_step(s5, squawk, n1);
    lemma_step(s6, g, n1);
    lemma_step(s7, since, n1);
    lemma_step(s8, h, n1);
    lemma_step(s9, link, n1);
    let n2 = d + route + e;
    lemma_three_end(s1, d, route, e);
    lemma_step(s4, seen, n2);
    lemma_step(s5, squawk, n2);
    lemma_step(s6, g, n2);
    lemma_step(s7, since, n2);
    lemma_step(s8, h, n2);
    lemma_step(s9, link, n2);
    let n3 = e + seen;
    lemma_two_end(s3, e, seen);
    lemma_step(s5, squawk, n3);
    lemma_step(s6, g, n3);
    lemma_step(s7, since, n3);
    lemma_step(s8, h, n3);
    lemma_step(s9, link, n3);
    let n4 = squawk + g;
    lemma_two_end(s5, squawk, g);
    lemma_step(s7, since, n4);
    lemma_step(s8, h, n4);
    lemma_step(s9, link, n4);
    let n5 = g + since + h;
    lemma_three_end(s6, g, since, h);
    lemma_step(s9, link, n5);
}

proof fn lemma_step(a: Seq<char>, b: Seq<char>, needle: Seq<char>)
    requires
        search::contains(a, needle),
    ensures
        search::contains(a + b, needle),
{
    let i = choose|i: int| search::occurs_at(a, needle, i);
    assert((a + b).subrange(i, i + needle.len()) =~= a.subrange(i, i + needle.len()));
    lemma_word(a + b, needle, i);
}

proof fn lemma_two_end(p: Seq<char>, a: Seq<char>, b: Seq<char>)
    ensures
        search::contains(p + a + b, a + b),
{
    lemma_two(p, a, b);
    lemma_in(p, a + b);
}

proof fn lemma_three_end(p: Seq<char>, a: Seq<char>, b: Seq<char>, c: Seq<char>)
    ensures
        search::contains(p + a + b + c, a + b + c),
{
    lemma_two(p, a, b);
    lemma_two(p, a + b, c);
    lemma_in(p, a + b + c);
}

proof fn lemma_five_end(
    p: Seq<char>,
    a: Seq<char>,
    b: Seq<char>,
    c: Seq<char>,
    d: Seq<char>,
    e: Seq<char>,
)
    ensures
        search::contains(p + a + b + c + d + e, a + b + c + d + e),
{
    lemma_two(p, a, b);
    lemma_two(p, a + b, c);
    lemma_two(p, a + b + c, d);
    lemma_two(p, a + b + c + d, e);
    lemma_in(p, a + b + c + d + e);
}

proof fn lemma_two(p: Seq<char>, a: Seq<char>, b: Seq<char>)
    ensures
        p + a + b == p + (a + b),
{
    assert(p + a + b =~= p + (a + b));
}

proof fn lemma_in(a: Seq<char>, b: Seq<char>)
    ensures
        search::contains(a + b, b),
{
    assert((a + b).subrange(a.len() as int, (a + b).len() as int) =~= b);
    lemma_word(a + b, b, a.len() as int);
}

/// Each phase has its own name.
pub proof fn law_phases_have_names()
    ensures
        FlightPhase::Unknown.name() == "Unknown"@,
        FlightPhase::Ground.name() == "Ground"@,
        FlightPhase::Takeoff.name() == "Takeoff"@,
        FlightPhase::Climb.name() == "Climb"@,
        FlightPhase::Cruise.name() == "Cruise"@,
        FlightPhase::Descent.name() == "Descent"@,
        FlightPhase::Approach.name() == "Approach"@,
        FlightPhase::Landing.name() == "Landing"@,
{
}

/// The status of a flight whose aircraft is only visible shows no phase, but the
/// callsign that the aircraft has.
#[verifier::spinoff_prover]
#[verifier::rlimit(60)]
pub proof fn law_visible_aircraft_are_not_taken_for_the_flight(f: FlightModel, now: Timestamp)
    requires
        f.target_confirmation is AircraftVisible,
    ensures
        (f.prefix() + " | Aircraft sichtbar, Zielflug noch nicht bestätigt"@).is_prefix_of(
            super::format::status_text(f, now),
        ),
        f.observed_callsign is Some ==> search::contains(
            super::format::status_text(f, now),
            " | ADS-B aktuell "@ + f.observed_callsign->0 + " | seit "@,
        ),
        f.shown_phase() == "AircraftVisible"@,
{
    let whole = super::format::status_text(f, now);
    let head = f.prefix() + " | Aircraft sichtbar, Zielflug noch nicht bestätigt"@;
    let tail = super::format::elapsed_text(f.tracked_at, now) + " getrackt"@
        + super::format::link_suffix(f.hex);
    let observed = super::format::or_text(
        super::format::labelled(" | ADS-B aktuell "@, f.observed_callsign),
        Seq::empty(),
    );
    assert(whole =~= head + (observed + " | seit "@) + tail);
    search::lemma_holds(head, observed + " | seit "@, tail);
}

/// A known address is linked to a map, in small letters.
#[verifier::spinoff_prover]
#[verifier::rlimit(60)]
pub proof fn law_links(f: FlightModel, now: Timestamp, hex: Seq<char>)
    requires
        f.hex == Some(hex),
        slice::trimmed(hex).len() > 0,
    ensures
        ({
            let link = " | https://globe.adsbexchange.com/?icao="@ + chars::ascii_lowered(
                slice::trimmed(hex),
            );
            &&& link.is_suffix_of(super::format::status_text(f, now))
            &&& link.is_suffix_of(super::format::track_started_text(f))
        }),
{
    let link = super::format::link_suffix(f.hex);
    assert(super::format::track_started_text(f) =~= ("Tracking gestartet: "@ + f.prefix()
        + " | Status: aktiv"@) + link);
}

/// The answer to a track tells the flight and what is known of it.
#[verifier::spinoff_prover]
#[verifier::rlimit(60)]
pub proof fn law_started_tracks_are_told(f: FlightModel, info: Seq<char>)
    ensures
        ("Tracking gestartet: "@ + f.prefix()).is_prefix_of(
            commands::started_text(f, Some(info), false),
        ),
        (" | "@ + info).is_suffix_of(commands::started_text(f, Some(info), false)),
        commands::started_text(f, None, false) == super::format::track_started_text(f),
        commands::started_text(f, None, false).is_prefix_of(commands::started_text(f, None, true)),
{
    let base = super::format::track_started_text(f);
    assert(commands::started_text(f, Some(info), false) =~= base + (" | "@ + info));
    assert(base =~= ("Tracking gestartet: "@ + f.prefix()) + (" | Status: aktiv"@
        + super::format::link_suffix(f.hex)));
}

/// The list of flights shows each flight with its phase and altitude.
#[verifier::spinoff_prover]
#[verifier::rlimit(60)]
pub proof fn law_lists_show_every_flight(flights: Seq<FlightModel>, i: int)
    requires
        0 <= i < flights.len(),
    ensures
        search::contains(
            super::format::list_text(flights),
            flights[i].label() + ": "@ + flights[i].shown_phase() + " "@
                + super::format::altitude_text(flights[i].altitude_ft),
        ),
        flights[i].route is Some ==> search::contains(
            super::format::list_text(flights),
            " "@ + ((flights[i].route->0).0 + "\u{2192}"@ + (flights[i].route->0).1),
        ),
{
    let none = Seq::<char>::empty();
    let entries = flights.map_values(|f: FlightModel| super::format::list_entry(f));
    let f = flights[i];
    let e = super::format::list_entry(f);
    let head = f.label() + ": "@ + f.shown_phase() + " "@ + super::format::altitude_text(
        f.altitude_ft,
    );
    let speed = super::format::or_text(
        super::format::labelled(" "@, super::format::speed_text(f.ground_speed_kts)),
        Seq::empty(),
    );
    let route = " "@ + super::format::route_text(f.route);
    assert(entries[i] == e);
    assert(e =~= none + head + (speed + route));
    assert(e =~= (head + speed) + route + none);
    search::lemma_holds(none, head, speed + route);
    search::lemma_holds(head + speed, route, none);
    lemma_joined_part(entries, " | "@, i);
    let all = slice::joined(entries, " | "@);
    let (a, b) = choose|a: Seq<char>, b: Seq<char>| all == #[trigger] (a + e + b);
    search::lemma_holds_more(a, e, b, head);
    search::lemma_holds_more(a, e, b, route);
    search::lemma_holds_more("Aktive Tracks: "@, all, none, head);
    search::lemma_holds_more("Aktive Tracks: "@, all, none, route);
    assert("Aktive Tracks: "@ + all + none =~= super::format::list_text(flights));
}

/// Joined parts are something, each part and something again.
#[verifier::spinoff_prover]
#[verifier::rlimit(60)]
proof fn lemma_joined_part(parts: Seq<Seq<char>>, sep: Seq<char>, i: int)
    requires
        0 <= i < parts.len(),
    ensures
        exists|a: Seq<char>, b: Seq<char>| slice::joined(parts, sep) == #[trigger] (a + parts[i] + b),
    decreases parts.len(),
{
    let none = Seq::<char>::empty();
    let whole = slice::joined(parts, sep);
    let front = parts.drop_last();
    if parts.len() == 1 {
        assert(whole =~= none + parts[i] + none);
    } else if i == parts.len() - 1 {
        assert(whole =~= (slice::joined(front, sep) + sep) + parts[i] + none);
    } else {
        assert(front[i] == parts[i]);
        lemma_joined_part(front, sep, i);
        let (a, b) = choose|a: Seq<char>, b: Seq<char>|
            slice::joined(front, sep) == #[trigger] (a + front[i] + b);
        assert(whole =~= a + parts[i] + (b + sep + parts.last()));
    }
}

/// Speeds are shown in whole knots, rounded to the nearest one.
pub proof fn law_speeds_are_rounded(d: Decimal, knots: nat)
    requires
        d.micros >= 0,
        -500_000 < d.micros - knots * 1_000_000 < 500_000,
    ensures
        super::format::speed_text(Some(d)) == Some(number::digits(knots) + "kt"@),
{
}

} // verus!
