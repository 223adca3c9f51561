//! What holds of what is known of flights, of how they are found and of when they
//! are looked for.

use vstd::prelude::*;

use super::cache;
use super::cache::LookupModel;
use super::commands;
use super::metadata;
use super::schedule::{PendingPollSchedule, PollReadiness};
use super::{FlightModel, IdentifierModel, TrackedFlight, TrackerModel};
use crate::aviation::types;
use crate::aviation::types::{
    AviationstackAircraft, AviationstackAirline, AviationstackArrival, AviationstackDeparture,
    AviationstackFlight, AviationstackFlightIdentity, MetadataModel,
};
use crate::decimal::Decimal;
use crate::lists;
use crate::text::{chars, slice};
use crate::time;
use crate::time::Timestamp;

verus! {

/// What the provider says of the departure is known of the departure, each entry for
/// itself, and nothing else is.
pub proof fn law_departures_are_taken_over(f: AviationstackFlight, x: AviationstackDeparture)
    ensures
        ({
            let m = f.metadata();
            &&& f.departure == Some(x) ==> {
                &&& m.departure_airport == slice::opt_text(x.airport)
                &&& m.departure_iata == slice::opt_text(x.iata)
                &&& m.departure_icao == slice::opt_text(x.icao)
                &&& m.departure_terminal == slice::opt_text(x.terminal)
                &&& m.departure_gate == slice::opt_text(x.gate)
                &&& m.departure_scheduled == types::provider_time(slice::opt_text(x.scheduled))
                &&& m.departure_estimated == types::provider_time(slice::opt_text(x.estimated))
                &&& m.departure_actual == types::provider_time(slice::opt_text(x.actual))
                &&& m.departure_actual_runway == types::provider_time(
                    slice::opt_text(x.actual_runway),
                )
                &&& m.departure_delay_minutes == x.delay
            }
            &&& f.departure is None ==> m.departure_airport is None && m.departure_iata is None
                && m.departure_icao is None && m.departure_terminal is None && m.departure_gate
                is None && m.departure_scheduled is None && m.departure_estimated is None
                && m.departure_actual is None && m.departure_actual_runway is None
                && m.departure_delay_minutes is None
        }),
{
}

/// What the provider says of the arrival is known of the arrival, each entry for
/// itself, and nothing else is.
pub proof fn law_arrivals_are_taken_over(f: AviationstackFlight, x: AviationstackArrival)
    ensures
        ({
            let m = f.metadata();
            &&& f.arrival == Some(x) ==> {
                &&& m.arrival_airport == slice::opt_text(x.airport)
                &&& m.arrival_iata == slice::opt_text(x.iata)
                &&& m.arrival_icao == slice::opt_text(x.icao)
                &&& m.arrival_terminal == slice::opt_text(x.terminal)
                &&& m.arrival_gate == slice::opt_text(x.gate)
                &&& m.arrival_baggage == slice::opt_text(x.baggage)
                &&& m.arrival_scheduled == types::provider_time(slice::opt_text(x.scheduled))
                &&& m.arrival_estimated == types::provider_time(slice::opt_text(x.estimated))
                &&& m.arrival_actual == types::provider_time(slice::opt_text(x.actual))
                &&& m.arrival_delay_minutes == x.delay
            }
            &&& f.arrival is None ==> m.arrival_airport is None && m.arrival_iata is None
                && m.arrival_icao is None && m.arrival_terminal is None && m.arrival_gate is None
                && m.arrival_baggage is None && m.arrival_scheduled is None && m.arrival_estimated
                is None && m.arrival_actual is None && m.arrival_delay_minutes is None
        }),
{
}

/// What the provider says of the flight, the airline and the aircraft is known of
/// them.
pub proof fn law_identities_are_taken_over(
    f: AviationstackFlight,
    a: AviationstackFlightIdentity,
    b: AviationstackAirline,
    c: AviationstackAircraft,
)
    ensures
        ({
            let m = f.metadata();
            &&& m.flight_date == slice::opt_text(f.flight_date)
            &&& m.flight_status == slice::opt_text(f.flight_status)
            &&& f.flight == Some(a) ==> m.flight_iata == slice::opt_text(a.iata) && m.flight_icao
                == slice::opt_text(a.icao) && m.flight_number == slice::opt_text(a.number)
            &&& f.airline == Some(b) ==> m.airline_iata == slice::opt_text(b.iata)
                && m.airline_icao == slice::opt_text(b.icao) && m.airline_name == slice::opt_text(
                b.name,
            )
            &&& f.aircraft == Some(c) ==> m.aircraft_registration == slice::opt_text(c.registration)
                && m.aircraft_icao24 == slice::opt_text(c.icao24) && m.aircraft_icao
                == slice::opt_text(c.icao)
        }),
{
}

/// A text of the provider stands for the instant that it is without the white space
/// around it, and a blank one for none.
pub proof fn law_provider_times(s: Seq<char>)
    ensures
        types::provider_time(None) is None,
        slice::trimmed(s).len() == 0 ==> types::provider_time(Some(s)) is None,
        slice::trimmed(s).len() > 0 ==> match time::rfc3339_parts(slice::trimmed(s)) {
            Some((secs, frac)) => types::provider_time(Some(s)) is Some && types::provider_time(
                Some(s),
            )->0.ticks == secs * 2_000_000_000 + frac,
            None => types::provider_time(Some(s)) is None,
        },
{
}

/// Metadata gives a flight the scheduled departure that it lacks, and its takeoff as
/// the runway or else the departure has it. What was asked for stays, and so do
/// phase and sightings.
pub proof fn law_metadata_times(
    f: FlightModel,
    m: MetadataModel,
    coords: Option<(Decimal, Decimal)>,
)
    ensures
        ({
            let g = metadata::with_metadata(f, m, coords);
            &&& f.scheduled_departure_at is Some ==> g.scheduled_departure_at
                == f.scheduled_departure_at
            &&& f.scheduled_departure_at is None ==> g.scheduled_departure_at
                == m.departure_scheduled
            &&& m.departure_actual_runway is Some ==> g.takeoff_at == m.departure_actual_runway
            &&& m.departure_actual_runway is None && m.departure_actual is Some ==> g.takeoff_at
                == m.departure_actual
            &&& m.departure_actual_runway is None && m.departure_actual is None ==> g.takeoff_at
                == f.takeoff_at
            &&& g.identifier == f.identifier && g.tracked_by == f.tracked_by && g.tracked_at
                == f.tracked_at
            &&& g.phase == f.phase && g.target_confirmation == f.target_confirmation
            &&& g.last_seen == f.last_seen && g.last_visible_at == f.last_visible_at
            &&& g.aviationstack_checked == f.aviationstack_checked
        }),
{
}

/// Metadata with both airports gives a flight the route from the one of departure to
/// the one of arrival, in upper case, and the coordinates of the destination where
/// they are known.
pub proof fn law_metadata_routes(
    f: FlightModel,
    m: MetadataModel,
    coords: Option<(Decimal, Decimal)>,
    from: Seq<char>,
    to: Seq<char>,
)
    requires
        m.departure_iata == Some(from),
        m.arrival_iata == Some(to),
        slice::uppercased(slice::trimmed(from)).len() > 0,
        slice::uppercased(slice::trimmed(to)).len() > 0,
    ensures
        ({
            let g = metadata::with_metadata(f, m, coords);
            &&& g.route == Some(
                (slice::uppercased(slice::trimmed(from)), slice::uppercased(slice::trimmed(to))),
            )
            &&& coords is Some ==> g.dest_lat == Some((coords->0).0) && g.dest_lon == Some(
                (coords->0).1,
            )
            &&& coords is None ==> g.dest_lat == f.dest_lat && g.dest_lon == f.dest_lon
        }),
{
}

/// Metadata without one of the airports changes no route.
pub proof fn law_metadata_keeps_routes(
    f: FlightModel,
    m: MetadataModel,
    coords: Option<(Decimal, Decimal)>,
)
    requires
        m.departure_iata is None || m.arrival_iata is None,
    ensures
        metadata::with_metadata(f, m, coords).route == f.route,
        metadata::with_metadata(f, m, coords).dest_lat == f.dest_lat,
        metadata::with_metadata(f, m, coords).dest_lon == f.dest_lon,
{
}

/// Metadata gives a flight the callsign under which it is operated: the one of the
/// flight, or else the code of the airline with the number of the flight.
pub proof fn law_metadata_callsigns(
    f: FlightModel,
    m: MetadataModel,
    coords: Option<(Decimal, Decimal)>,
    icao: Seq<char>,
    airline: Seq<char>,
    flight_number: Seq<char>,
)
    ensures
        ({
            let g = metadata::with_metadata(f, m, coords);
            &&& m.flight_icao == Some(icao) && slice::trimmed(icao).len() > 0 ==> g.callsign == Some(
                slice::uppercased(slice::trimmed(icao)),
            )
            &&& m.flight_icao is None && m.airline_icao == Some(airline) && m.flight_number == Some(
                flight_number,
            ) && slice::trimmed(airline).len() > 0 && slice::trimmed(flight_number).len() > 0
                ==> g.callsign == Some(
                slice::uppercased(slice::trimmed(airline)) + slice::trimmed(flight_number),
            )
            &&& m.flight_icao is None && (m.airline_icao is None || m.flight_number is None)
                ==> g.callsign == f.callsign && g.alias_callsigns == f.alias_callsigns
        }),
{
}

/// Metadata gives a flight the type of aircraft that it lacks.
pub proof fn law_metadata_types(
    f: FlightModel,
    m: MetadataModel,
    coords: Option<(Decimal, Decimal)>,
    t: Seq<char>,
)
    ensures
        f.aircraft_type is Some ==> metadata::with_metadata(f, m, coords).aircraft_type
            == f.aircraft_type,
        f.aircraft_type is None && m.aircraft_icao == Some(t) ==> metadata::with_metadata(
            f,
            m,
            coords,
        ).aircraft_type == Some(slice::uppercased(t)),
{
}

/// A text means a flight that goes by it, whatever the case of the letters: by its
/// identifier, its callsign, one of its other callsigns or its address.
pub open spec fn means(text: Seq<char>, f: FlightModel) -> bool {
    let upper = slice::uppercased(text);
    ||| chars::same_ignoring_case(
        match f.identifier {
            IdentifierModel::Callsign(s) => s,
            IdentifierModel::Hex(s) => s,
        },
        upper,
    )
    ||| f.callsign is Some && chars::same_ignoring_case(f.callsign->0, upper)
    ||| f.hex is Some && chars::same_ignoring_case(f.hex->0, upper)
    ||| exists|i: int|
        0 <= i < f.alias_callsigns.len() && chars::same_ignoring_case(
            #[trigger] f.alias_callsigns[i],
            upper,
        )
}

/// What a query means is the first flight that goes by it.
pub proof fn law_queries_find_flights(flights: Seq<FlightModel>, query: Seq<char>)
    ensures
        match commands::place_meant(flights, query) {
            Some(i) => {
                &&& 0 <= i < flights.len()
                &&& means(query, flights[i])
                &&& forall|j: int| 0 <= j < i ==> !means(query, #[trigger] flights[j])
            },
            None => forall|j: int| 0 <= j < flights.len() ==> !means(query, #[trigger] flights[j]),
        },
{
    let p = |f: FlightModel| f.meant_by(slice::uppercased(query));
    lists::lemma_first_where(flights, p);
    assert forall|j: int| 0 <= j < flights.len() implies p(flights[j]) == means(
        query,
        #[trigger] flights[j],
    ) by {}
}

/// A flight that is tracked already is not tracked again: not under its identifier,
/// and not under a callsign or an address that it has.
pub proof fn law_duplicates(
    flights: Seq<FlightModel>,
    i: int,
    id: IdentifierModel,
    callsign: Option<Seq<char>>,
    hex: Option<Seq<char>>,
)
    requires
        0 <= i < flights.len(),
    ensures
        flights[i].identifier == id ==> commands::has_duplicate(flights, id, callsign, hex),
        callsign is Some && flights[i].callsign is Some && chars::same_ignoring_case(
            flights[i].callsign->0,
            callsign->0,
        ) ==> commands::has_duplicate(flights, id, callsign, hex),
        hex is Some && flights[i].hex is Some && chars::same_ignoring_case(
            flights[i].hex->0,
            hex->0,
        ) ==> commands::has_duplicate(flights, id, callsign, hex),
        id is Callsign && flights[i].callsign is Some && chars::same_ignoring_case(
            flights[i].callsign->0,
            id->Callsign_0,
        ) ==> commands::has_duplicate(flights, id, callsign, hex),
        id is Hex && flights[i].hex is Some && chars::same_ignoring_case(
            flights[i].hex->0,
            id->Hex_0,
        ) ==> commands::has_duplicate(flights, id, callsign, hex),
{
    if !commands::has_duplicate(flights, id, callsign, hex) {
        assert(!flights[i].collides(id, callsign, hex));
    }
}

/// A flight of which nothing is known but names that no tracked flight has is no
/// duplicate.
pub proof fn law_new_flights_are_no_duplicates(
    flights: Seq<FlightModel>,
    id: IdentifierModel,
    callsign: Option<Seq<char>>,
    hex: Option<Seq<char>>,
)
    requires
        commands::has_duplicate(flights, id, callsign, hex),
    ensures
        exists|i: int|
            0 <= i < flights.len() && {
                let f = #[trigger] flights[i];
                ||| f.identifier == id
                ||| hex is Some && f.hex is Some && chars::same_ignoring_case(f.hex->0, hex->0)
                ||| id is Hex && f.hex is Some && chars::same_ignoring_case(f.hex->0, id->Hex_0)
                ||| callsign is Some && f.associated_with(callsign->0)
                ||| id is Callsign && f.associated_with(id->Callsign_0)
            },
{
    let i = choose|i: int|
        0 <= i < flights.len() && (#[trigger] flights[i]).collides(id, callsign, hex);
    let f = flights[i];
    assert(f.collides(id, callsign, hex));
}

/// A flight is looked for under its own callsign first, where it has one that is not
/// blank.
pub proof fn law_own_callsigns_come_first(f: FlightModel)
    requires
        f.callsign is Some,
        slice::trimmed(f.callsign->0).len() > 0,
    ensures
        f.candidates().len() > 0,
        f.candidates()[0] == slice::uppercased(slice::trimmed(f.callsign->0)),
{
    let none = Seq::<Seq<char>>::empty();
    let own = metadata::with_opt_alias(none, f.callsign);
    assert(!metadata::knows(none, slice::uppercased(slice::trimmed(f.callsign->0))));
    let two = metadata::with_opt_alias(own, f.identifier.callsign());
    lemma_aliases_grow(two, f.alias_callsigns);
    assert(own.is_prefix_of(two));
    assert(f.candidates()[0] == two[0]);
}

proof fn lemma_aliases_grow(base: Seq<Seq<char>>, more: Seq<Seq<char>>)
    ensures
        base.is_prefix_of(cache::with_aliases(base, more)),
        forall|i: int|
            0 <= i < more.len() && slice::trimmed(#[trigger] more[i]).len() > 0 ==> metadata::knows(
                cache::with_aliases(base, more),
                slice::uppercased(slice::trimmed(more[i])),
            ),
    decreases more.len(),
{
    if more.len() > 0 {
        let front = cache::with_aliases(base, more.drop_last());
        let all = cache::with_aliases(base, more);
        lemma_aliases_grow(base, more.drop_last());
        assert(front.is_prefix_of(all));
        assert forall|i: int|
            0 <= i < more.len() && slice::trimmed(
                #[trigger] more[i],
            ).len() > 0 implies metadata::knows(
            all,
            slice::uppercased(slice::trimmed(more[i])),
        ) by {
            let c = slice::uppercased(slice::trimmed(more[i]));
            if i < more.len() - 1 {
                assert(more.drop_last()[i] == more[i]);
                assert(metadata::knows(front, c));
                let k = choose|k: int|
                    0 <= k < front.len() && chars::same_ignoring_case(#[trigger] front[k], c);
                assert(all[k] == front[k]);
            } else if !metadata::knows(front, c) {
                assert(all[front.len() as int] == c);
            }
        }
    }
}

/// A flight is looked for under each of its callsigns.
pub proof fn law_all_callsigns_are_tried(f: FlightModel, i: int)
    requires
        0 <= i < f.alias_callsigns.len(),
        slice::trimmed(f.alias_callsigns[i]).len() > 0,
    ensures
        metadata::knows(f.candidates(), slice::uppercased(slice::trimmed(f.alias_callsigns[i]))),
{
    let two = metadata::with_opt_alias(
        metadata::with_opt_alias(Seq::empty(), f.callsign),
        f.identifier.callsign(),
    );
    lemma_aliases_grow(two, f.alias_callsigns);
}

/// A flight is looked for by its address where the address was asked for, or where it
/// has one that someone named or that was seen.
pub proof fn law_addresses_are_polled(f: TrackedFlight)
    ensures
        f@.polled_by_hex() <==> f.identifier is Hex || f.hex is Some && (f.hex_source is Some
            || f.last_seen is Some),
{
}

/// Nobody looks for a flight that departs in more than three hours.
pub proof fn law_flights_chill(f: TrackedFlight, now: Timestamp)
    ensures
        f@.chills(now) <==> f.scheduled_departure_at is Some && f.scheduled_departure_at->0.spec_since(
            now,
        ) > 3 * 3600 * 1_000_000_000,
{
}

/// A question about a flight is answered with what is known of it. Where nothing is,
/// the answer says whether the provider failed, has nothing, or was not asked.
pub proof fn law_questions_are_answered(
    id: IdentifierModel,
    lookup: LookupModel,
    provider_enabled: bool,
)
    ensures
        lookup.metadata is Some ==> commands::info_answer(id, lookup, provider_enabled)
            == lookup.metadata->0.info_text(),
        lookup.metadata is None && lookup.failed ==> commands::info_answer(
            id,
            lookup,
            provider_enabled,
        ) == "Provider-Problem: AviationStack down | Grund: Anfrage fehlgeschlagen FDM"@,
        lookup.metadata is None && !lookup.failed && (lookup.checked || provider_enabled)
            ==> id.text().is_prefix_of(commands::info_answer(id, lookup, provider_enabled)),
        lookup.metadata is None && !lookup.failed && !lookup.checked && !provider_enabled
            ==> commands::info_answer(id, lookup, provider_enabled)
            == "Provider-Problem: AviationStack down | Grund: nicht konfiguriert FDM"@,
{
}

/// So many seconds, in nanoseconds.
pub open spec fn seconds(n: int) -> int {
    n * 1_000_000_000
}

/// A pending flight with a scheduled departure is polled every quarter of an hour
/// until an hour before it, every five minutes until half an hour before it, every
/// minute until it, every two minutes for 45 minutes after it, every five minutes
/// until three hours after it, and then every quarter of an hour. After twelve hours
/// it is given up.
pub proof fn law_departures_set_the_pace(f: FlightModel, now: Timestamp, departure: Timestamp)
    requires
        f.scheduled_departure_at == Some(departure),
        f.tracked_at.ticks < departure.spec_plus(43_200).ticks,
    ensures
        ({
            let s = f.pending_schedule(now);
            let until = departure.spec_since(now);
            let since = now.spec_since(departure);
            let after = until <= seconds(1_800) && now.ticks > departure.ticks;
            &&& s is Expired <==> now.ticks >= departure.spec_plus(43_200).ticks
            &&& s is Active ==> {
                &&& s->expires_at == departure.spec_plus(43_200)
                &&& until > seconds(3_600) ==> s->interval == 900
                &&& seconds(1_800) < until <= seconds(3_600) ==> s->interval == 300
                &&& until <= seconds(1_800) && now.ticks <= departure.ticks ==> s->interval == 60
                &&& after && since <= seconds(2_700) ==> s->interval == 120
                &&& after && seconds(2_700) < since <= seconds(10_800) ==> s->interval == 300
                &&& after && since > seconds(10_800) ==> s->interval == 900
                &&& until > seconds(3_600) ==> s->starts_at == departure.spec_plus(-10_800)
                &&& seconds(1_800) < until <= seconds(3_600) ==> s->starts_at
                    == departure.spec_plus(-3_600)
                &&& until <= seconds(1_800) && now.ticks <= departure.ticks ==> s->starts_at
                    == departure.spec_plus(-1_800)
                &&& after && since <= seconds(2_700) ==> s->starts_at == departure
            }
        }),
{
}

/// A pending flight without a scheduled departure, or with one that was over when the
/// track began, is polled every two minutes for ten minutes, every ten minutes for six
/// hours and then every half hour. After a day it is given up.
pub proof fn law_age_sets_the_pace(f: FlightModel, now: Timestamp)
    requires
        f.scheduled_departure_at is None || f.tracked_at.ticks
            >= f.scheduled_departure_at->0.spec_plus(43_200).ticks,
    ensures
        ({
            let s = f.pending_schedule(now);
            let age = now.spec_since(f.tracked_at);
            &&& s is Expired <==> now.ticks >= f.tracked_at.spec_plus(86_400).ticks
            &&& s is Active ==> {
                &&& s->expires_at == f.tracked_at.spec_plus(86_400)
                &&& s->starts_at == f.tracked_at
                &&& s->refresh_at is None
                &&& age < seconds(600) ==> s->interval == 120
                &&& seconds(600) <= age < seconds(21_600) ==> s->interval == 600
                &&& age >= seconds(21_600) ==> s->interval == 1_800
            }
        }),
{
}

/// A flight that has been seen is polled every half minute near the ground and for
/// five polls after a change, every minute while it climbs or descends and else every
/// two minutes, counted from its last poll.
pub proof fn law_phases_set_the_pace(f: FlightModel, now: Timestamp)
    requires
        !f.pending(),
    ensures
        ({
            let near = f.phase is Takeoff || f.phase is Approach || f.phase is Landing;
            let pace: int = if f.polls_since_change < 5 || near {
                30
            } else if f.phase is Climb || f.phase is Descent {
                60
            } else {
                120
            };
            match f.last_adsb_poll_at {
                Some(t) => f.readiness(now) == if t.spec_plus(pace).ticks <= now.ticks {
                    PollReadiness::Due
                } else {
                    PollReadiness::NotDue(t.spec_plus(pace))
                },
                None => f.readiness(now) is Due,
            }
        }),
{
}

/// A pending flight is polled as soon as its interval has passed since the last poll,
/// but not before its schedule begins.
pub proof fn law_pending_flights_are_due(
    f: FlightModel,
    now: Timestamp,
    interval: i64,
    starts_at: Timestamp,
    expires_at: Timestamp,
)
    requires
        f.pending(),
        f.pending_schedule(now) == (PendingPollSchedule::Active {
            interval,
            starts_at,
            refresh_at: None,
            expires_at,
        }),
        now.ticks < expires_at.ticks,
    ensures
        f.readiness(now) is Due <==> starts_at.ticks <= now.ticks && (f.last_adsb_poll_at is Some
            ==> f.last_adsb_poll_at->0.spec_plus(interval as int).ticks <= now.ticks),
{
}

/// A flight has not been seen yet where it is not confirmed, unless an aircraft has
/// been visible for it.
pub proof fn law_pending_flights(f: TrackedFlight)
    ensures
        f@.pending() <==> f.target_confirmation is Pending || f.target_confirmation
            is AircraftVisible && f.last_visible_at is None,
{
}

/// No more than twelve flights are tracked, none twice.
pub proof fn law_the_tracker_is_limited(t: TrackerModel, r: super::request::RequestModel)
    ensures
        t.flights.len() >= 12 ==> t.refusal(r) == Some(super::request::full_text()),
        t.refusal(r) is None ==> t.flights.len() < 12 && super::request::flights_of(
            t.flights,
            r.requested_by,
        ) < 3 && forall|i: int|
            0 <= i < t.flights.len() ==> (#[trigger] t.flights[i]).identifier != r.identifier,
        t.flights.len() < 12 && super::request::flights_of(t.flights, r.requested_by) >= 3
            ==> t.refusal(r) == Some(super::request::user_full_text()),
{
    if t.refusal(r) is None {
        assert forall|i: int| 0 <= i < t.flights.len() implies (
        #[trigger] t.flights[i]).identifier != r.identifier by {
            assert(!t.flights[i].collides(r.identifier, None, None));
        }
    }
}

/// A lookup that found nothing is remembered for ten minutes. What was found is
/// remembered for a day where the flight has landed, and else until four hours after
/// its best known arrival, or for four hours where that is not known or over.
pub proof fn law_results_are_remembered_long_enough(m: MetadataModel, now: Timestamp)
    ensures
        cache::expiry(None, now) == now.spec_plus(600),
        ({
            let over = m.flight_status is Some && chars::same_ignoring_case(
                m.flight_status->0,
                "landed"@,
            );
            let arrival = if m.arrival_actual is Some {
                m.arrival_actual
            } else if m.arrival_estimated is Some {
                m.arrival_estimated
            } else {
                m.arrival_scheduled
            };
            &&& over ==> cache::expiry(Some(m), now) == now.spec_plus(86_400)
            &&& !over && arrival is Some && arrival->0.spec_plus(14_400).ticks > now.ticks
                ==> cache::expiry(Some(m), now) == arrival->0.spec_plus(14_400)
            &&& !over && (arrival is None || arrival->0.spec_plus(14_400).ticks <= now.ticks)
                ==> cache::expiry(Some(m), now) == now.spec_plus(14_400)
        }),
{
}

/// A track is ended by who started it and by moderators, and by nobody else: then the
/// flight that was meant is gone, the others stay, and its end is recorded with who
/// ended it.
pub proof fn law_tracks_are_ended_by_those_who_may(
    t: TrackerModel,
    query: Seq<char>,
    by: Seq<char>,
    is_mod: bool,
    now: Timestamp,
    i: int,
)
    requires
        commands::place_meant(t.flights, query) == Some(i),
    ensures
        ({
            let (u, r) = t.untracked(query, by, is_mod, now);
            let may = is_mod || t.flights[i].tracked_by == by;
            &&& may ==> u.flights == t.flights.remove(i) && u.cache == t.cache
            &&& may ==> r.journal is Some && r.journal->0.event == "tracking_removal"@
                && r.journal->0.identifier == t.flights[i].identifier.text() && r.journal->0
                == super::debug_journal::removal_event(
                t.flights[i],
                by,
                t.flights[i].last_seen_age(now),
            )
            &&& may ==> ("Untrack entfernt: "@ + t.flights[i].label()).is_prefix_of(r.reply)
            &&& !may ==> u == t && r.journal is None
        }),
{
}

/// Where nothing is meant, nothing changes, and the answer says what was not found.
pub proof fn law_unknown_flights_stay_unknown(
    t: TrackerModel,
    query: Seq<char>,
    by: Seq<char>,
    is_mod: bool,
    now: Timestamp,
)
    requires
        forall|j: int| 0 <= j < t.flights.len() ==> !means(query, #[trigger] t.flights[j]),
    ensures
        t.untracked(query, by, is_mod, now).0 == t,
        t.untracked(query, by, is_mod, now).1.journal is None,
        (query + " nicht gefunden"@).is_prefix_of(t.untracked(query, by, is_mod, now).1.reply),
        (query + " nicht gefunden"@).is_prefix_of(t.status_answer(Some(query), now)),
{
    law_queries_find_flights(t.flights, query);
    reveal_strlit(" nicht gefunden");
    reveal_strlit(" nicht gefunden | Status: kein aktiver Track FDM");
    let head = query + " nicht gefunden"@;
    let text = commands::unknown_text(query);
    assert(text.take(head.len() as int) =~= head);
}

/// A question about a flight is answered with its status, and one about none in
/// particular with the list of all.
pub proof fn law_statuses_are_answered(t: TrackerModel, query: Seq<char>, now: Timestamp, i: int)
    requires
        0 <= i < t.flights.len(),
        means(query, t.flights[i]),
        forall|j: int| 0 <= j < i ==> !means(query, #[trigger] t.flights[j]),
    ensures
        t.status_answer(Some(query), now) == super::format::status_text(t.flights[i], now),
        t.status_answer(None, now) == super::format::list_text(t.flights),
{
    law_queries_find_flights(t.flights, query);
}

/// The tracker wakes up when a flight is due, and at once where one is already.
pub proof fn law_the_tracker_wakes_up(f: FlightModel, now: Timestamp)
    ensures
        f.readiness(now) is Due || f.readiness(now) is Expired ==> f.wake_at(now) == now,
        f.readiness(now) matches PollReadiness::NotDue(t) ==> f.wake_at(now) == t,
{
}

} // verus!
