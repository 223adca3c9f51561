//! What the chat messages about flights say.

use vstd::prelude::*;

use crate::aviation::types::{AviationstackFlightMetadata, MetadataModel};
use crate::text::{number, slice};
use crate::time;
use crate::time::Timestamp;

verus! {

/// A text is another one with something put in at one place.
pub open spec fn put_in(without: Seq<char>, what: Seq<char>, with: Seq<char>) -> bool {
    exists|i: int|
        0 <= i <= without.len() && with == #[trigger] without.take(i) + what + without.skip(i)
}

/// What follows the first of joined parts.
pub open spec fn tail(parts: Seq<Seq<char>>, sep: Seq<char>) -> Seq<char>
    decreases parts.len(),
{
    if parts.len() == 0 {
        Seq::empty()
    } else {
        tail(parts.drop_last(), sep) + sep + parts.last()
    }
}

proof fn lemma_tail_of_both(a: Seq<Seq<char>>, b: Seq<Seq<char>>, sep: Seq<char>)
    ensures
        tail(a + b, sep) == tail(a, sep) + tail(b, sep),
    decreases b.len(),
{
    if b.len() == 0 {
        assert(a + b =~= a);
        assert(tail(a, sep) + tail(b, sep) =~= tail(a, sep));
    } else {
        assert((a + b).drop_last() =~= a + b.drop_last());
        lemma_tail_of_both(a, b.drop_last(), sep);
        assert(tail(a + b, sep) =~= tail(a, sep) + tail(b, sep));
    }
}

proof fn lemma_joined_tail(a: Seq<Seq<char>>, b: Seq<Seq<char>>, sep: Seq<char>)
    requires
        a.len() > 0,
    ensures
        slice::joined(a + b, sep) == slice::joined(a, sep) + tail(b, sep),
    decreases b.len(),
{
    if b.len() == 0 {
        assert(a + b =~= a);
        assert(slice::joined(a, sep) + tail(b, sep) =~= slice::joined(a, sep));
    } else {
        assert((a + b).drop_last() =~= a + b.drop_last());
        lemma_joined_tail(a, b.drop_last(), sep);
        assert(slice::joined(a + b, sep) =~= slice::joined(a, sep) + tail(b, sep));
    }
}

/// A part behind a bar, where there is one.
pub open spec fn barred(part: Option<Seq<char>>) -> Seq<char> {
    match part {
        Some(p) => " | "@ + p,
        None => Seq::empty(),
    }
}

proof fn lemma_tail_one(part: Option<Seq<char>>)
    ensures
        tail(super::format::opt_part(part), " | "@) == barred(part),
{
    let l = super::format::opt_part(part);
    if part is Some {
        assert(l.drop_last() =~= Seq::<Seq<char>>::empty());
        assert(tail(l.drop_last(), " | "@) =~= Seq::<char>::empty());
        assert(tail(l, " | "@) =~= " | "@ + part->0);
    }
}

/// The optional parts of a summary, in their order.
spec fn extras(m: MetadataModel) -> Seq<Option<Seq<char>>> {
    seq![
        super::format::labelled("Dep: "@, super::format::opt_clock(m.departure_time())),
        super::format::labelled("Arr: "@, super::format::opt_clock(m.arrival_time())),
        super::format::labelled("Baggage: "@, super::format::shown(m.arrival_baggage)),
        super::format::delay_text("Dep"@, m.departure_delay_minutes),
        super::format::delay_text("Arr"@, m.arrival_delay_minutes),
        super::format::labelled("Status: "@, super::format::shown(m.flight_status)),
        super::format::labelled("Aircraft: "@, m.airframe()),
        super::format::labelled("ICAO24: "@, m.address_text()),
    ]
}

/// Optional parts one after the other, each behind a bar.
spec fn run_of(parts: Seq<Option<Seq<char>>>) -> Seq<char>
    decreases parts.len(),
{
    if parts.len() == 0 {
        Seq::empty()
    } else {
        run_of(parts.drop_last()) + barred(parts.last())
    }
}

/// The optional parts that there are.
spec fn present(parts: Seq<Option<Seq<char>>>) -> Seq<Seq<char>>
    decreases parts.len(),
{
    if parts.len() == 0 {
        Seq::empty()
    } else {
        present(parts.drop_last()) + super::format::opt_part(parts.last())
    }
}

proof fn lemma_present_run(parts: Seq<Option<Seq<char>>>)
    ensures
        tail(present(parts), " | "@) == run_of(parts),
    decreases parts.len(),
{
    if parts.len() > 0 {
        let last = super::format::opt_part(parts.last());
        lemma_present_run(parts.drop_last());
        lemma_tail_of_both(present(parts.drop_last()), last, " | "@);
        lemma_tail_one(parts.last());
    }
}

proof fn lemma_present_step(head: Seq<Seq<char>>, e: Seq<Option<Seq<char>>>, k: int)
    requires
        0 <= k < e.len(),
    ensures
        head + present(e.take(k + 1)) == head + present(e.take(k)) + super::format::opt_part(e[k]),
{
    assert(e.take(k + 1).drop_last() =~= e.take(k));
    assert(head + (present(e.take(k)) + super::format::opt_part(e[k])) =~= head + present(e.take(k))
        + super::format::opt_part(e[k]));
}

proof fn lemma_eight(head: Seq<Seq<char>>, e: Seq<Option<Seq<char>>>)
    requires
        e.len() == 8,
    ensures
        head + super::format::opt_part(e[0]) + super::format::opt_part(e[1])
            + super::format::opt_part(e[2]) + super::format::opt_part(e[3])
            + super::format::opt_part(e[4]) + super::format::opt_part(e[5])
            + super::format::opt_part(e[6]) + super::format::opt_part(e[7]) == head + present(e),
{
    assert(head + present(e.take(0)) =~= head);
    lemma_present_step(head, e, 0);
    lemma_present_step(head, e, 1);
    lemma_present_step(head, e, 2);
    lemma_present_step(head, e, 3);
    lemma_present_step(head, e, 4);
    lemma_present_step(head, e, 5);
    lemma_present_step(head, e, 6);
    lemma_present_step(head, e, 7);
    assert(e.take(8) =~= e);
}

/// A summary is the two airports behind the flight, and then what else is known.
proof fn lemma_summary(m: MetadataModel)
    ensures
        m.info_text() == m.headline() + " | "@ + m.itinerary() + run_of(extras(m)),
{
    let sep = " | "@;
    let head = seq![m.headline(), m.itinerary()];
    let e = extras(m);
    lemma_eight(head, e);
    assert(m.info_parts() == head + present(e));
    lemma_joined_tail(head, present(e), sep);
    lemma_present_run(e);
    assert(head.drop_last() =~= seq![m.headline()]);
    assert(slice::joined(head.drop_last(), sep) == m.headline());
    assert(slice::joined(head, sep) == m.headline() + sep + m.itinerary());
}

/// One more part is put in behind those before it.
proof fn lemma_run_update(parts: Seq<Option<Seq<char>>>, k: int, p: Seq<char>)
    requires
        0 <= k < parts.len(),
        parts[k] is None,
    ensures
        ({
            let more = parts.update(k, Some(p));
            let i = run_of(parts.take(k)).len() as int;
            &&& 0 <= i <= run_of(parts).len()
            &&& run_of(more) == run_of(parts).take(i) + (" | "@ + p) + run_of(parts).skip(i)
        }),
    decreases parts.len(),
{
    let more = parts.update(k, Some(p));
    let old = run_of(parts);
    let i = run_of(parts.take(k)).len() as int;
    if k == parts.len() - 1 {
        assert(more.drop_last() =~= parts.drop_last());
        assert(parts.take(k) =~= parts.drop_last());
        assert(old =~= run_of(parts.drop_last()));
        assert(run_of(more) =~= old.take(i) + (" | "@ + p) + old.skip(i));
    } else {
        let front = parts.drop_last();
        lemma_run_update(front, k, p);
        assert(more.drop_last() =~= front.update(k, Some(p)));
        assert(front.take(k) =~= parts.take(k));
        let r = run_of(front);
        let b = barred(parts.last());
        assert(old == r + b);
        assert(old.take(i) =~= r.take(i));
        assert(old.skip(i) =~= r.skip(i) + b);
        assert(run_of(more) =~= old.take(i) + (" | "@ + p) + old.skip(i));
    }
}

/// Where one more thing is known, a summary says it in addition.
proof fn lemma_said_in_addition(m: MetadataModel, none: MetadataModel, k: int, p: Seq<char>)
    requires
        m.headline() == none.headline(),
        m.itinerary() == none.itinerary(),
        0 <= k < 8,
        extras(none)[k] is None,
        extras(m) == extras(none).update(k, Some(p)),
    ensures
        put_in(none.info_text(), " | "@ + p, m.info_text()),
{
    lemma_summary(m);
    lemma_summary(none);
    lemma_run_update(extras(none), k, p);
    let head = m.headline() + " | "@ + m.itinerary();
    let r = run_of(extras(none));
    let i = run_of(extras(none).take(k)).len() as int;
    let at = head.len() + i;
    let old = none.info_text();
    assert(old.take(at) =~= head + r.take(i));
    assert(old.skip(at) =~= r.skip(i));
    assert(m.info_text() =~= old.take(at) + (" | "@ + p) + old.skip(at));
}

/// The hour and minute of UTC at an instant.
pub open spec fn utc_hour_and_minute(t: Timestamp) -> Seq<char> {
    time::clock_text(((t.ticks as int / 2_000_000_000) % 86_400) as nat)
}

/// The character of a digit.
pub open spec fn digit_of(n: int) -> char {
    (('0' as u32) + n) as char
}

/// A clock shows two digits of the hour, a colon and two digits of the minute.
pub proof fn law_clocks(hour: nat, minute: nat, second: nat)
    requires
        hour < 24,
        minute < 60,
        second < 60,
    ensures
        time::clock_text(hour * 3600 + minute * 60 + second) == seq![
            digit_of(hour as int / 10),
            digit_of(hour as int % 10),
            ':',
            digit_of(minute as int / 10),
            digit_of(minute as int % 10),
        ],
{
    let s = hour * 3600 + minute * 60 + second;
    assert(s / 3600 == hour);
    assert((s % 3600) / 60 == minute);
    lemma_two_digits(hour);
    lemma_two_digits(minute);
    assert(time::clock_text(s) =~= seq![
        digit_of(hour as int / 10),
        digit_of(hour as int % 10),
        ':',
        digit_of(minute as int / 10),
        digit_of(minute as int % 10),
    ]);
}

proof fn lemma_two_digits(n: nat)
    requires
        n < 100,
    ensures
        number::two_digits(n) == seq![digit_of(n as int / 10), digit_of(n as int % 10)],
{
    reveal_with_fuel(number::digits, 3);
    assert(number::two_digits(n) =~= seq![digit_of(n as int / 10), digit_of(n as int % 10)]);
}

/// The best that is known of an arrival: when it was, or where it has not been yet
/// when it is expected, or else when it should be.
pub open spec fn arrives(m: AviationstackFlightMetadata, t: Timestamp) -> bool {
    ||| m.arrival_actual == Some(t)
    ||| m.arrival_actual is None && m.arrival_estimated == Some(t)
    ||| m.arrival_actual is None && m.arrival_estimated is None && m.arrival_scheduled == Some(t)
}

/// The best that is known of a departure: when the aircraft left the runway, when
/// it left, when it is expected to leave, or else when it should.
pub open spec fn departs(m: AviationstackFlightMetadata, t: Timestamp) -> bool {
    ||| m.departure_actual_runway == Some(t)
    ||| m.departure_actual_runway is None && m.departure_actual == Some(t)
    ||| m.departure_actual_runway is None && m.departure_actual is None && m.departure_estimated
        == Some(t)
    ||| m.departure_actual_runway is None && m.departure_actual is None && m.departure_estimated
        is None && m.departure_scheduled == Some(t)
}

/// A summary shows the actual arrival where it is known, the expected one where
/// only that is, and the scheduled one where nothing better is. Where nothing is
/// known of the arrival, it is the same without.
pub proof fn law_summaries_show_the_best_arrival(
    m: AviationstackFlightMetadata,
    none: AviationstackFlightMetadata,
    t: Timestamp,
)
    requires
        arrives(m, t),
        none == (AviationstackFlightMetadata {
            arrival_actual: None,
            arrival_estimated: None,
            arrival_scheduled: None,
            ..m
        }),
    ensures
        put_in(none@.info_text(), " | "@ + ("Arr: "@ + utc_hour_and_minute(t)), m@.info_text()),
{
    let p = "Arr: "@ + utc_hour_and_minute(t);
    assert(extras(m@) =~= extras(none@).update(1, Some(p)));
    lemma_said_in_addition(m@, none@, 1, p);
}

/// A summary shows the actual departure from the runway where it is known, else the
/// actual, else the expected and else the scheduled departure.
pub proof fn law_summaries_show_the_best_departure(
    m: AviationstackFlightMetadata,
    none: AviationstackFlightMetadata,
    t: Timestamp,
)
    requires
        departs(m, t),
        none == (AviationstackFlightMetadata {
            departure_actual_runway: None,
            departure_actual: None,
            departure_estimated: None,
            departure_scheduled: None,
            ..m
        }),
    ensures
        put_in(none@.info_text(), " | "@ + ("Dep: "@ + utc_hour_and_minute(t)), m@.info_text()),
{
    let p = "Dep: "@ + utc_hour_and_minute(t);
    assert(extras(m@) =~= extras(none@).update(0, Some(p)));
    lemma_said_in_addition(m@, none@, 0, p);
}

/// Once the actual arrival is known, the others do not matter, and once an arrival
/// is expected, the scheduled one does not. The same holds of departures.
pub proof fn law_worse_times_do_not_matter(
    m: AviationstackFlightMetadata,
    a: AviationstackFlightMetadata,
    b: AviationstackFlightMetadata,
)
    requires
        a == (AviationstackFlightMetadata {
            arrival_estimated: a.arrival_estimated,
            arrival_scheduled: a.arrival_scheduled,
            ..m
        }),
        m.arrival_actual is Some || a.arrival_estimated == m.arrival_estimated,
        m.arrival_actual is Some || m.arrival_estimated is Some || a.arrival_scheduled
            == m.arrival_scheduled,
        b == (AviationstackFlightMetadata {
            departure_actual: b.departure_actual,
            departure_estimated: b.departure_estimated,
            departure_scheduled: b.departure_scheduled,
            ..m
        }),
        m.departure_actual_runway is Some || b.departure_actual == m.departure_actual,
        m.departure_actual_runway is Some || m.departure_actual is Some || b.departure_estimated
            == m.departure_estimated,
        m.departure_actual_runway is Some || m.departure_actual is Some || m.departure_estimated
            is Some || b.departure_scheduled == m.departure_scheduled,
    ensures
        a@.info_text() == m@.info_text(),
        b@.info_text() == m@.info_text(),
{
    lemma_summary(m@);
    lemma_summary(a@);
    lemma_summary(b@);
    assert(extras(a@) =~= extras(m@));
    assert(extras(b@) =~= extras(m@));
}

/// A summary shows the baggage belt and the status, without white space around
/// them, where they are not blank.
pub proof fn law_summaries_show_baggage_and_status(
    m: MetadataModel,
    no_belt: MetadataModel,
    no_status: MetadataModel,
    belt: Seq<char>,
    status: Seq<char>,
)
    requires
        no_belt == (MetadataModel { arrival_baggage: None, ..m }),
        no_status == (MetadataModel { flight_status: None, ..m }),
    ensures
        m.arrival_baggage == Some(belt) && slice::trimmed(belt).len() > 0 ==> put_in(
            no_belt.info_text(),
            " | "@ + ("Baggage: "@ + slice::trimmed(belt)),
            m.info_text(),
        ),
        m.arrival_baggage == Some(belt) && slice::trimmed(belt).len() == 0 ==> m.info_text()
            == no_belt.info_text(),
        m.flight_status == Some(status) && slice::trimmed(status).len() > 0 ==> put_in(
            no_status.info_text(),
            " | "@ + ("Status: "@ + slice::trimmed(status)),
            m.info_text(),
        ),
        m.flight_status == Some(status) && slice::trimmed(status).len() == 0 ==> m.info_text()
            == no_status.info_text(),
{
    lemma_summary(m);
    lemma_summary(no_belt);
    lemma_summary(no_status);
    if m.arrival_baggage == Some(belt) {
        if slice::trimmed(belt).len() > 0 {
            let p = "Baggage: "@ + slice::trimmed(belt);
            assert(extras(m) =~= extras(no_belt).update(2, Some(p)));
            lemma_said_in_addition(m, no_belt, 2, p);
        } else {
            assert(extras(m) =~= extras(no_belt));
        }
    }
    if m.flight_status == Some(status) {
        if slice::trimmed(status).len() > 0 {
            let p = "Status: "@ + slice::trimmed(status);
            assert(extras(m) =~= extras(no_status).update(5, Some(p)));
            lemma_said_in_addition(m, no_status, 5, p);
        } else {
            assert(extras(m) =~= extras(no_status));
        }
    }
}

/// A summary shows a delay in minutes, of the departure and of the arrival each
/// under its own name, and none that is not above zero.
pub proof fn law_summaries_show_delays(
    m: MetadataModel,
    no_dep: MetadataModel,
    no_arr: MetadataModel,
    minutes: i64,
)
    requires
        no_dep == (MetadataModel { departure_delay_minutes: None, ..m }),
        no_arr == (MetadataModel { arrival_delay_minutes: None, ..m }),
    ensures
        m.departure_delay_minutes == Some(minutes) && minutes > 0 ==> put_in(
            no_dep.info_text(),
            " | "@ + ("Dep"@ + " delay: "@ + number::decimal(minutes as int) + "m"@),
            m.info_text(),
        ),
        m.departure_delay_minutes == Some(minutes) && minutes <= 0 ==> m.info_text()
            == no_dep.info_text(),
        m.arrival_delay_minutes == Some(minutes) && minutes > 0 ==> put_in(
            no_arr.info_text(),
            " | "@ + ("Arr"@ + " delay: "@ + number::decimal(minutes as int) + "m"@),
            m.info_text(),
        ),
        m.arrival_delay_minutes == Some(minutes) && minutes <= 0 ==> m.info_text()
            == no_arr.info_text(),
{
    lemma_summary(m);
    lemma_summary(no_dep);
    lemma_summary(no_arr);
    if m.departure_delay_minutes == Some(minutes) {
        if minutes > 0 {
            let p = "Dep"@ + " delay: "@ + number::decimal(minutes as int) + "m"@;
            assert(extras(m) =~= extras(no_dep).update(3, Some(p)));
            lemma_said_in_addition(m, no_dep, 3, p);
        } else {
            assert(extras(m) =~= extras(no_dep));
        }
    }
    if m.arrival_delay_minutes == Some(minutes) {
        if minutes > 0 {
            let p = "Arr"@ + " delay: "@ + number::decimal(minutes as int) + "m"@;
            assert(extras(m) =~= extras(no_arr).update(4, Some(p)));
            lemma_said_in_addition(m, no_arr, 4, p);
        } else {
            assert(extras(m) =~= extras(no_arr));
        }
    }
}

/// A summary shows the type of the aircraft and behind it its registration, and the
/// address in upper case.
pub proof fn law_summaries_show_the_aircraft(
    m: MetadataModel,
    none: MetadataModel,
    no_address: MetadataModel,
    kind: Seq<char>,
    registration: Seq<char>,
    address: Seq<char>,
)
    requires
        none == (MetadataModel { aircraft_icao: None, aircraft_registration: None, ..m }),
        no_address == (MetadataModel { aircraft_icao24: None, ..m }),
        slice::trimmed(kind).len() > 0,
        slice::trimmed(registration).len() > 0,
        slice::trimmed(address).len() > 0,
    ensures
        m.aircraft_icao == Some(kind) && m.aircraft_registration == Some(registration) ==> put_in(
            none.info_text(),
            " | "@ + ("Aircraft: "@ + (slice::trimmed(kind) + " "@ + slice::trimmed(registration))),
            m.info_text(),
        ),
        m.aircraft_icao == Some(kind) && m.aircraft_registration is None ==> put_in(
            none.info_text(),
            " | "@ + ("Aircraft: "@ + slice::trimmed(kind)),
            m.info_text(),
        ),
        m.aircraft_icao is None && m.aircraft_registration == Some(registration) ==> put_in(
            none.info_text(),
            " | "@ + ("Aircraft: "@ + slice::trimmed(registration)),
            m.info_text(),
        ),
        m.aircraft_icao24 == Some(address) ==> put_in(
            no_address.info_text(),
            " | "@ + ("ICAO24: "@ + slice::uppercased(slice::trimmed(address))),
            m.info_text(),
        ),
{
    let parts = super::format::opt_part(super::format::shown(m.aircraft_icao)) + super::format::opt_part(
        super::format::shown(m.aircraft_registration),
    );
    if m.aircraft_icao == Some(kind) && m.aircraft_registration == Some(registration) {
        assert(parts =~= seq![slice::trimmed(kind), slice::trimmed(registration)]);
        assert(parts.drop_last() =~= seq![slice::trimmed(kind)]);
        assert(slice::joined(parts.drop_last(), " "@) == slice::trimmed(kind));
        let p = "Aircraft: "@ + (slice::trimmed(kind) + " "@ + slice::trimmed(registration));
        assert(extras(m) =~= extras(none).update(6, Some(p)));
        lemma_said_in_addition(m, none, 6, p);
    } else if m.aircraft_icao == Some(kind) && m.aircraft_registration is None {
        assert(parts =~= seq![slice::trimmed(kind)]);
        let p = "Aircraft: "@ + slice::trimmed(kind);
        assert(extras(m) =~= extras(none).update(6, Some(p)));
        lemma_said_in_addition(m, none, 6, p);
    } else if m.aircraft_icao is None && m.aircraft_registration == Some(registration) {
        assert(parts =~= seq![slice::trimmed(registration)]);
        let p = "Aircraft: "@ + slice::trimmed(registration);
        assert(extras(m) =~= extras(none).update(6, Some(p)));
        lemma_said_in_addition(m, none, 6, p);
    }
    if m.aircraft_icao24 == Some(address) {
        let p = "ICAO24: "@ + slice::uppercased(slice::trimmed(address));
        assert(extras(m) =~= extras(no_address).update(7, Some(p)));
        lemma_said_in_addition(m, no_address, 7, p);
    }
}

/// A name is not there, or blank.
pub open spec fn nameless(name: Option<Seq<char>>) -> bool {
    name is None || slice::trimmed(name->0).len() == 0
}

/// The first of three names that is not blank.
pub open spec fn best_name(
    a: Option<Seq<char>>,
    b: Option<Seq<char>>,
    c: Option<Seq<char>>,
    name: Seq<char>,
) -> bool {
    slice::trimmed(name).len() > 0 && (a == Some(name) || nameless(a) && b == Some(name) || nameless(
        a,
    ) && nameless(b) && c == Some(name))
}

/// What is said of an airport behind its name: terminal and gate, where they are
/// known.
pub open spec fn place_in(terminal: Option<Seq<char>>, gate: Option<Seq<char>>) -> Seq<char> {
    (if nameless(terminal) {
        Seq::empty()
    } else {
        " "@ + ("T"@ + slice::trimmed(terminal->0))
    }) + (if nameless(gate) {
        Seq::empty()
    } else {
        " "@ + ("Gate "@ + slice::trimmed(gate->0))
    })
}

proof fn lemma_airport(
    iata: Option<Seq<char>>,
    icao: Option<Seq<char>>,
    airport: Option<Seq<char>>,
    terminal: Option<Seq<char>>,
    gate: Option<Seq<char>>,
    name: Seq<char>,
)
    requires
        best_name(iata, icao, airport, name),
    ensures
        super::format::airport_text(iata, icao, airport, terminal, gate) == slice::trimmed(name)
            + place_in(terminal, gate),
{
    let sep = " "@;
    let t = super::format::opt_part(super::format::labelled("T"@, super::format::shown(terminal)));
    let g = super::format::opt_part(super::format::labelled("Gate "@, super::format::shown(gate)));
    let head = seq![slice::trimmed(name)];
    assert(head + t + g =~= head + (t + g));
    lemma_joined_tail(head, t + g, sep);
    lemma_tail_of_both(t, g, sep);
    if t.len() > 0 {
        assert(t.drop_last() =~= Seq::<Seq<char>>::empty());
        assert(tail(t.drop_last(), sep) =~= Seq::<char>::empty());
        assert(tail(t, sep) =~= sep + t[0]);
    }
    if g.len() > 0 {
        assert(g.drop_last() =~= Seq::<Seq<char>>::empty());
        assert(tail(g.drop_last(), sep) =~= Seq::<char>::empty());
        assert(tail(g, sep) =~= sep + g[0]);
    }
    assert(tail(t, sep) + tail(g, sep) =~= place_in(terminal, gate));
}

/// A summary begins with the flight, the airport of departure and the airport of
/// arrival, in this order, each under the first of its names that is not blank.
pub proof fn law_summaries_begin_with_the_route(
    m: AviationstackFlightMetadata,
    flight: Seq<char>,
    from: Seq<char>,
    to: Seq<char>,
)
    requires
        best_name(m@.flight_iata, m@.flight_icao, m@.flight_number, flight),
        best_name(
            slice::opt_text(m.departure_iata),
            slice::opt_text(m.departure_icao),
            slice::opt_text(m.departure_airport),
            from,
        ),
        best_name(
            slice::opt_text(m.arrival_iata),
            slice::opt_text(m.arrival_icao),
            slice::opt_text(m.arrival_airport),
            to,
        ),
    ensures
        (flight + (if nameless(slice::opt_text(m.airline_name)) {
            Seq::empty()
        } else {
            " "@ + slice::trimmed(m.airline_name->0@)
        }) + " | "@ + slice::trimmed(from) + place_in(
            slice::opt_text(m.departure_terminal),
            slice::opt_text(m.departure_gate),
        ) + " -> "@ + slice::trimmed(to) + place_in(
            slice::opt_text(m.arrival_terminal),
            slice::opt_text(m.arrival_gate),
        )).is_prefix_of(m@.info_text()),
{
    let x = m@;
    lemma_summary(x);
    lemma_airport(
        x.departure_iata,
        x.departure_icao,
        x.departure_airport,
        x.departure_terminal,
        x.departure_gate,
        from,
    );
    lemma_airport(
        x.arrival_iata,
        x.arrival_icao,
        x.arrival_airport,
        x.arrival_terminal,
        x.arrival_gate,
        to,
    );
    let airline = if nameless(x.airline_name) {
        Seq::empty()
    } else {
        " "@ + slice::trimmed(x.airline_name->0)
    };
    assert(x.headline() =~= flight + airline);
    let dep = slice::trimmed(from) + place_in(x.departure_terminal, x.departure_gate);
    let arr = slice::trimmed(to) + place_in(x.arrival_terminal, x.arrival_gate);
    assert(x.itinerary() == dep + " -> "@ + arr);
    let said = flight + airline + " | "@ + slice::trimmed(from) + place_in(
        x.departure_terminal,
        x.departure_gate,
    ) + " -> "@ + slice::trimmed(to) + place_in(x.arrival_terminal, x.arrival_gate);
    assert(said =~= x.headline() + " | "@ + x.itinerary());
    assert(x.info_text() == said + run_of(extras(x)));
}

} // verus!
