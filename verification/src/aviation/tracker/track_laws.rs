//! What holds of requests, of rounds of polls and of the flights that come of them.

use vstd::prelude::*;

use super::advance;
use super::advance::{Bearings, EmitModel, ObservationModel, OutcomeModel, Sighting, UpdateModel};
use super::cache;
use super::cache::LookupModel;
use super::commands;
use super::debug_journal::EventModel;
use super::metadata;
use super::queue;
use super::request;
use super::request::{NextModel, OpeningModel, QueryModel, RequestModel, RouteOutcomeModel};
use super::round;
use super::round::RoundModel;
use super::schedule::PollReadiness;
use super::{
    CacheEntryModel, FlightModel, HexSource, IdentifierModel, TargetConfirmation, TrackerModel,
};
use crate::aviation::airports;
use crate::aviation::airports::PositionModel;
use crate::aviation::codes;
use crate::aviation::types::{AircraftModel, MetadataModel};
use crate::lists;
use crate::text::{chars, slice};
use crate::time;
use crate::time::Timestamp;

verus! {

/// A requested flight belongs to the user who asked for it, is what they asked for,
/// and is tracked from then on. Nothing has been seen of it.
pub proof fn law_requested_flights(
    r: RequestModel,
    callsign: Option<Seq<char>>,
    checked: bool,
    now: Timestamp,
)
    ensures
        ({
            let f = FlightModel::requested(r, callsign, checked, now);
            &&& f.tracked_by == r.requested_by
            &&& f.tracked_at == now
            &&& f.identifier == r.identifier
            &&& f.callsign == callsign
            &&& f.aviationstack_checked == checked
            &&& r.identifier is Hex ==> f.hex == Some(r.identifier->Hex_0) && f.hex_source == Some(
                HexSource::UserInput,
            )
            &&& r.identifier is Callsign ==> f.hex is None && f.hex_source is None
            &&& f.target_confirmation is Pending && f.phase is Unknown
            &&& f.last_seen is None && f.last_visible_at is None && f.takeoff_at is None
            &&& f.last_adsb_poll_at is None && f.route is None
        }),
{
}

/// A request for a callsign that is not refused has the callsign resolved.
pub proof fn law_callsigns_are_resolved(
    t: TrackerModel,
    r: RequestModel,
    airports: Seq<PositionModel>,
    now: Timestamp,
)
    requires
        t.refusal(r) is None,
        r.identifier is Callsign,
    ensures
        t.on_request(r, airports, now).0 == t,
        t.on_request(r, airports, now).1.next == (NextModel::Resolve { request: r }),
{
}

/// A request for an address that is not refused has the aircraft looked for at that
/// address, on behalf of the user who asked.
pub proof fn law_addresses_are_looked_for(
    t: TrackerModel,
    r: RequestModel,
    airports: Seq<PositionModel>,
    now: Timestamp,
    hex: Seq<char>,
)
    requires
        t.refusal(r) is None,
        r.identifier == IdentifierModel::Hex(hex),
        !commands::has_duplicate(t.flights, r.identifier, None, Some(hex)),
    ensures
        ({
            let (u, s) = t.on_request(r, airports, now);
            &&& u == t
            &&& s.next is Poll
            &&& s.next->Poll_query == QueryModel::Hex(hex)
            &&& s.next->Poll_opening.request == r
            &&& s.next->Poll_opening.now == now
            &&& s.next->Poll_opening.flight.identifier == r.identifier
            &&& s.next->Poll_opening.flight.tracked_by == r.requested_by
        }),
{
    reveal(TrackerModel::on_lookup);
    reveal(request::enriched);
}

/// A request that the tracker goes through with adds the flight behind the others, is
/// stored, and is answered.
pub proof fn law_tracked_flights(t: TrackerModel, o: OpeningModel, journal: Seq<EventModel>)
    ensures
        ({
            let (u, s) = t.on_complete(o, journal);
            &&& u.flights.len() == t.flights.len() + 1
            &&& u.flights.last() == o.flight
            &&& forall|i: int| 0 <= i < t.flights.len() ==> #[trigger] u.flights[i] == t.flights[i]
            &&& u.cache == t.cache
            &&& s.next is Reply && s.next->save
        }),
{
    reveal(TrackerModel::on_complete);
}

/// A flight whose aircraft cannot be found is refused, unless it was asked for by
/// callsign and the provider can be asked: a refusal changes nothing.
pub proof fn law_unheard_flights(
    t: TrackerModel,
    o: OpeningModel,
    query: QueryModel,
    outcome: OutcomeModel,
    airports: Seq<PositionModel>,
)
    requires
        outcome is Error || outcome is Timeout || outcome is Miss && query is Hex,
        o.request.identifier is Hex || !o.request.provider_enabled,
    ensures
        t.on_polled(o, query, outcome, airports).0 == t,
        t.on_polled(o, query, outcome, airports).1.next is Reply,
        !t.on_polled(o, query, outcome, airports).1.next->save,
        outcome is Miss ==> o.request.identifier.text().is_prefix_of(
            t.on_polled(o, query, outcome, airports).1.next->Reply_text,
        ),
{
    reveal(TrackerModel::on_polled);
}

/// A callsign that could be an address is tried as one, where no aircraft has it as a
/// callsign.
pub proof fn law_callsigns_are_tried_as_addresses(
    t: TrackerModel,
    o: OpeningModel,
    callsigns: Seq<Seq<char>>,
    airports: Seq<PositionModel>,
    callsign: Seq<char>,
)
    requires
        o.request.identifier == IdentifierModel::Callsign(callsign),
        codes::icao24(callsign),
    ensures
        ({
            let (u, s) = t.on_polled(
                o,
                QueryModel::Callsigns(callsigns),
                OutcomeModel::Miss,
                airports,
            );
            u == t && s.next == (NextModel::Poll { opening: o, query: QueryModel::Hex(callsign) })
        }),
{
    reveal(TrackerModel::on_polled);
}

/// At a first sighting a flight takes over what its aircraft reports.
pub proof fn law_first_sightings(
    f: FlightModel,
    ac: AircraftModel,
    confirmation: TargetConfirmation,
    now: Timestamp,
)
    ensures
        ({
            let g = f.first_seen(ac, confirmation, now);
            &&& g.target_confirmation == confirmation
            &&& g.observed_callsign == ac.callsign()
            &&& g.lat == ac.lat && g.lon == ac.lon && g.squawk == ac.squawk
            &&& g.ground_speed_kts == ac.gs
            &&& g.altitude_ft == ac.altitude() && g.vertical_rate_fpm == ac.rate()
            &&& confirmation is AircraftVisible ==> g.last_seen == f.last_seen && g.phase
                == f.phase
            &&& confirmation is ConfirmedByCallsign || confirmation is InferredByAssignedHex
                ==> g.last_seen == Some(now) && g.last_visible_at == Some(now)
            &&& g.identifier == f.identifier && g.tracked_by == f.tracked_by && g.tracked_at
                == f.tracked_at
        }),
{
    reveal(FlightModel::first_seen);
    reveal(FlightModel::observed);
}

/// A route that is found becomes the route of the flight, from the origin to the
/// destination, with the coordinates that the destination has. Any other outcome
/// changes nothing.
pub proof fn law_found_routes(
    f: FlightModel,
    origin: Seq<char>,
    destination: Seq<char>,
    outcome: RouteOutcomeModel,
    airports: Seq<PositionModel>,
)
    requires
        outcome is Found ==> outcome == (RouteOutcomeModel::Found { origin, destination }),
        slice::uppercased(slice::trimmed(origin)).len() > 0,
        slice::uppercased(slice::trimmed(destination)).len() > 0,
    ensures
        !(outcome is Found) ==> request::with_route(f, outcome, airports) == f,
        outcome is Found ==> {
            let g = request::with_route(f, outcome, airports);
            let place = airports::destination_coords(airports, destination);
            &&& g.route == Some(
                (
                    slice::uppercased(slice::trimmed(origin)),
                    slice::uppercased(slice::trimmed(destination)),
                ),
            )
            &&& place is Some ==> g.dest_lat == Some((place->0).0) && g.dest_lon == Some(
                (place->0).1,
            )
            &&& place is None ==> g.dest_lat == f.dest_lat && g.dest_lon == f.dest_lon
        },
{
}

/// Every flight that is due is looked for, and every flight whose time is up is over
/// and announced.
pub proof fn law_rounds_pass_over_no_flight(flights: Seq<FlightModel>, now: Timestamp, i: int)
    requires
        0 <= i < flights.len(),
    ensures
        flights[i].readiness(now) is Due ==> round::starting(flights, now).plans.contains(
            flights[i].plan(),
        ),
        flights[i].readiness(now) is Expired ==> round::starting(
            flights,
            now,
        ).round.removals.contains(flights[i].identifier) && round::starting(
            flights,
            now,
        ).round.messages.contains(advance::emit_text(flights[i], EmitModel::PendingExpired, now)),
    decreases flights.len(),
{
    let front = flights.drop_last();
    let s = round::starting(front, now);
    let all = round::starting(flights, now);
    if i < flights.len() - 1 {
        law_rounds_pass_over_no_flight(front, now, i);
        assert(front[i] == flights[i]);
        if flights[i].readiness(now) is Due {
            let k = s.plans.index_of(flights[i].plan());
            assert(all.plans[k] == s.plans[k]);
        }
        if flights[i].readiness(now) is Expired {
            let k = s.round.removals.index_of(flights[i].identifier);
            assert(all.round.removals[k] == s.round.removals[k]);
            let text = advance::emit_text(flights[i], EmitModel::PendingExpired, now);
            let m = s.round.messages.index_of(text);
            assert(all.round.messages[m] == s.round.messages[m]);
        }
    } else {
        assert(flights.last() == flights[i]);
        if flights[i].readiness(now) is Due {
            assert(all.plans[s.plans.len() as int] == flights[i].plan());
        }
        if flights[i].readiness(now) is Expired {
            assert(all.round.removals[s.round.removals.len() as int] == flights[i].identifier);
            assert(all.round.messages[s.round.messages.len() as int] == advance::emit_text(
                flights[i],
                EmitModel::PendingExpired,
                now,
            ));
        }
    }
}

/// A flight is looked for at the address that was asked for or that it has, and else
/// under its callsigns.
pub proof fn law_plans(f: FlightModel)
    ensures
        f.plan().identifier == f.identifier,
        f.identifier is Hex && (f.hex is None || f.hex == Some(f.identifier->Hex_0))
            ==> f.plan().query == QueryModel::Hex(f.identifier->Hex_0),
        f.identifier is Callsign && f.hex is None ==> f.plan().query == QueryModel::Callsigns(
            f.candidates(),
        ),
        f.hex is Some && f.last_seen is Some ==> f.plan().query == QueryModel::Hex(f.hex->0),
{
}

/// Each message of an update is sent behind those that are there, in its order, and a
/// flight that is over is remembered for the end of the round.
pub proof fn law_updates_are_taken_into_account(
    r: RoundModel,
    f: FlightModel,
    update: UpdateModel,
    i: int,
)
    ensures
        ({
            let s = r.concluded(f, update);
            &&& s.now == r.now && s.changed == r.changed
            &&& s.messages.len() == r.messages.len() + update.emits.len()
            &&& 0 <= i < r.messages.len() ==> s.messages[i] == r.messages[i]
            &&& 0 <= i < update.emits.len() ==> s.messages[r.messages.len() + i]
                == advance::emit_text(f, update.emits[i], r.now)
            &&& update.removal is Some ==> s.removals == r.removals.push(f.identifier)
            &&& update.removal is None ==> s.removals == r.removals
        }),
{
}

/// Where each identifier belongs to one flight, no flight that is over stays at the
/// end of a round.
pub proof fn law_finished_flights_leave(
    flights: Seq<FlightModel>,
    ids: Seq<IdentifierModel>,
    k: int,
)
    requires
        0 <= k < ids.len(),
        forall|i: int, j: int|
            0 <= i < j < flights.len() ==> (#[trigger] flights[i]).identifier != (
            #[trigger] flights[j]).identifier,
    ensures
        forall|i: int|
            0 <= i < round::without_all(flights, ids).len() ==> (#[trigger] round::without_all(
                flights,
                ids,
            )[i]).identifier != ids[k],
{
    lemma_left_flights(flights, ids);
}

/// What stays at the end of a round has distinct identifiers, none of which is over.
proof fn lemma_left_flights(flights: Seq<FlightModel>, ids: Seq<IdentifierModel>)
    requires
        forall|i: int, j: int|
            0 <= i < j < flights.len() ==> (#[trigger] flights[i]).identifier != (
            #[trigger] flights[j]).identifier,
    ensures
        ({
            let left = round::without_all(flights, ids);
            &&& forall|i: int, j: int|
                0 <= i < j < left.len() ==> (#[trigger] left[i]).identifier != (
                #[trigger] left[j]).identifier
            &&& forall|i: int, k: int|
                0 <= i < left.len() && 0 <= k < ids.len() ==> (#[trigger] left[i]).identifier
                    != #[trigger] ids[k]
        }),
    decreases ids.len(),
{
    if ids.len() > 0 {
        let rest = ids.drop_last();
        lemma_left_flights(flights, rest);
        let before = round::without_all(flights, rest);
        let left = round::without_all(flights, ids);
        lists::lemma_first_where(before, |f: FlightModel| f.identifier == ids.last());
        let place = commands::place_of(before, ids.last());
        assert forall|i: int, k: int| 0 <= i < left.len() && 0 <= k < ids.len() implies (
        #[trigger] left[i]).identifier != #[trigger] ids[k] by {
            let at = if place is Some && i >= place->0 {
                i + 1
            } else {
                i
            };
            assert(left[i] == before[at]);
            if k < rest.len() {
                assert(rest[k] == ids[k]);
            } else if place is Some {
                assert(before[place->0].identifier == ids.last());
                if at < place->0 {
                    assert(before[at].identifier != before[place->0].identifier);
                } else {
                    assert(before[place->0].identifier != before[at].identifier);
                }
            }
        }
        assert forall|i: int, j: int| 0 <= i < j < left.len() implies (
        #[trigger] left[i]).identifier != (#[trigger] left[j]).identifier by {
            let a = if place is Some && i >= place->0 {
                i + 1
            } else {
                i
            };
            let b = if place is Some && j >= place->0 {
                j + 1
            } else {
                j
            };
            assert(left[i] == before[a] && left[j] == before[b]);
        }
    }
}

/// Of several polls for one aircraft the first hit counts. Where there is none the
/// last poll does, and without any poll nothing was found.
pub proof fn law_first_hits_count(outcomes: Seq<OutcomeModel>, i: int)
    ensures
        0 <= i < outcomes.len() && outcomes[i] is Hit && (forall|j: int|
            0 <= j < i ==> !((#[trigger] outcomes[j]) is Hit)) ==> queue::settled(outcomes)
            == outcomes[i],
        outcomes.len() > 0 && (forall|j: int|
            0 <= j < outcomes.len() ==> !((#[trigger] outcomes[j]) is Hit)) ==> queue::settled(
            outcomes,
        ) == outcomes.last(),
        outcomes.len() == 0 ==> queue::settled(outcomes) is Miss,
{
    lists::lemma_first_where(outcomes, queue::is_hit());
    if let Some(k) = lists::first_where(outcomes, queue::is_hit()) {
        assert(queue::is_hit()(outcomes[k]));
        if 0 <= i < outcomes.len() && outcomes[i] is Hit {
            assert(queue::is_hit()(outcomes[i]));
        }
    } else {
        if 0 <= i < outcomes.len() && outcomes[i] is Hit {
            assert(queue::is_hit()(outcomes[i]));
        }
    }
}

/// The dashboard shows a flight with its owner, its callsigns, its last known height
/// and speed and the whole seconds since it was seen.
pub proof fn law_dashboards_show_flights(f: FlightModel, now: Timestamp)
    requires
        f.last_seen is Some ==> 0 <= now.spec_since(f.last_seen->0) < 1_000_000_000
            * 1_000_000_000,
    ensures
        ({
            let v = f.dashboard_view(now);
            &&& v.owner_login == f.tracked_by
            &&& v.callsign == f.callsign
            &&& v.altitude_ft == f.altitude_ft
            &&& v.ground_speed_kts == f.ground_speed_kts
            &&& f.callsign is Some ==> v.identifier == f.callsign->0
            &&& f.callsign is None && f.hex is Some ==> v.identifier == f.hex->0
            &&& f.last_seen is None ==> v.last_seen_secs_ago is None
            &&& f.last_seen is Some ==> v.last_seen_secs_ago is Some && v.last_seen_secs_ago->0
                * 1_000_000_000 <= now.spec_since(f.last_seen->0) < (v.last_seen_secs_ago->0 + 1)
                * 1_000_000_000
        }),
{
}

/// A flight that was asked for by callsign and never seen loses an address that does
/// not come from metadata. No other flight changes.
pub proof fn law_untrusted_addresses_are_dropped(f: FlightModel)
    ensures
        ({
            let g = f.without_untrusted_hex();
            let trusted = f.identifier is Hex || f.last_seen is Some || f.hex_source == Some(
                HexSource::AviationStack,
            );
            &&& trusted ==> g == f
            &&& !trusted && f.hex is Some ==> g.hex is None && g.hex_source is None
            &&& g.identifier == f.identifier && g.callsign == f.callsign && g.last_seen
                == f.last_seen
        }),
{
}

/// A flight that has been seen is not pending after a repair: one that was asked for
/// by address counts as inferred, one that was asked for by callsign as confirmed.
pub proof fn law_confirmations_are_repaired(f: FlightModel)
    ensures
        ({
            let g = f.with_confirmation();
            &&& f.last_seen is None || !(f.target_confirmation is Pending) ==> g == f
            &&& f.last_seen is Some && f.target_confirmation is Pending && f.identifier is Hex
                ==> g.target_confirmation is InferredByAssignedHex
            &&& f.last_seen is Some && f.target_confirmation is Pending && f.identifier is Callsign
                ==> g.target_confirmation is ConfirmedByCallsign
        }),
{
}

/// A flight that has been seen has been visible at its last poll or when it was seen,
/// whichever is later.
pub proof fn law_anchors_are_repaired(f: FlightModel, seen: Timestamp)
    requires
        f.last_seen == Some(seen),
        f.last_visible_at is None,
    ensures
        ({
            let at = f.with_anchor().last_visible_at;
            &&& at is Some
            &&& at->0.ticks >= seen.ticks
            &&& f.last_adsb_poll_at is Some ==> at->0.ticks >= f.last_adsb_poll_at->0.ticks
            &&& at->0 == seen || Some(at->0) == f.last_adsb_poll_at
        }),
{
}

/// An aircraft confirms a flight that goes by its callsign. At the address of the
/// flight it is at least visible.
pub proof fn law_aircraft_confirm_flights(
    f: FlightModel,
    ac: AircraftModel,
    used_hex: bool,
    now: Timestamp,
    callsign: Seq<char>,
)
    ensures
        ac.callsign() == Some(callsign) && f.callsign is Some && chars::same_ignoring_case(
            f.callsign->0,
            callsign,
        ) ==> f.confirmation_by(ac, used_hex, now) == Some(TargetConfirmation::ConfirmedByCallsign),
        ac.callsign() == Some(callsign) && f.identifier is Callsign && chars::same_ignoring_case(
            f.identifier->Callsign_0,
            callsign,
        ) ==> f.confirmation_by(ac, used_hex, now) == Some(TargetConfirmation::ConfirmedByCallsign),
        !used_hex && ac.callsign() is None ==> f.confirmation_by(ac, used_hex, now) is None,
        used_hex ==> f.confirmation_by(ac, used_hex, now) is Some,
        used_hex && f.identifier is Hex && ac.callsign() is None ==> f.confirmation_by(
            ac,
            used_hex,
            now,
        ) == Some(TargetConfirmation::InferredByAssignedHex),
        used_hex && f.identifier is Callsign && f.scheduled_departure_at is None && ac.callsign()
            is None ==> f.confirmation_by(ac, used_hex, now) == Some(
            TargetConfirmation::AircraftVisible,
        ),
{
}

/// An aircraft at the address of a flight that was asked for by callsign is taken for
/// it without a callsign from half an hour before until three hours after the
/// scheduled departure, and at no other time.
pub proof fn law_departures_vouch_for_aircraft(
    f: FlightModel,
    ac: AircraftModel,
    now: Timestamp,
    departure: Timestamp,
)
    requires
        f.identifier is Callsign,
        f.scheduled_departure_at == Some(departure),
        ac.callsign() is None,
    ensures
        f.confirmation_by(ac, true, now) == Some(
            if departure.spec_plus(-1_800).ticks <= now.ticks <= departure.spec_plus(10_800).ticks {
                TargetConfirmation::InferredByAssignedHex
            } else {
                TargetConfirmation::AircraftVisible
            },
        ),
{
}

/// A confirmation outlasts a sighting of an unconfirmed aircraft at the address for
/// five minutes, and no longer.
pub proof fn law_confirmations_outlast_sightings(
    f: FlightModel,
    ac: AircraftModel,
    now: Timestamp,
    seen: Timestamp,
)
    requires
        f.target_confirmation is ConfirmedByCallsign || f.target_confirmation
            is InferredByAssignedHex,
        f.last_seen == Some(seen),
    ensures
        ({
            let s = f.sighting(ac, TargetConfirmation::AircraftVisible, true, now);
            &&& now.spec_since(seen) <= 300 * 1_000_000_000 ==> s.confirmation
                == f.target_confirmation
            &&& now.spec_since(seen) > 300 * 1_000_000_000 ==> s.confirmation is AircraftVisible
            &&& !s.direct && !s.became_confirmed
        }),
{
}

/// A flight that is not found is given up exactly once it has not been visible for
/// half an hour.
pub proof fn law_lost_flights(f: FlightModel, obs: ObservationModel, now: Timestamp)
    requires
        obs.outcome is Miss,
    ensures
        f.advanced(obs, now).1.removal is Some <==> f.last_visible_at is Some && now.spec_since(
            f.last_visible_at->0,
        ) >= 1_800 * 1_000_000_000,
        f.last_visible_at is None ==> f.advanced(obs, now).0.polls_since_change
            >= f.polls_since_change,
        f.last_visible_at is None && f.polls_since_change < u32::MAX ==> f.advanced(
            obs,
            now,
        ).0.polls_since_change == f.polls_since_change + 1,
{
}

/// The angle between the course of an aircraft and the way to its destination is the
/// smaller one of the two between them.
pub proof fn law_deviations(b: Bearings)
    requires
        b.valid(),
    ensures
        0 <= b.deviation().micros <= 180_000_000,
        ({
            let d = b.ground_track.micros - b.bearing_to_dest.micros;
            let a = b.deviation().micros;
            d == a || d == -a || d == 360_000_000 - a || d == a - 360_000_000
        }),
{
}

/// A sinking flight that heads more than a quarter turn away from its destination is
/// counted, and the third time in a row is announced. Where it heads for its
/// destination again the count begins anew.
pub proof fn law_diversions_are_counted(
    f: FlightModel,
    update: UpdateModel,
    lat: crate::decimal::Decimal,
    lon: crate::decimal::Decimal,
    b: Bearings,
    s: Sighting,
)
    requires
        s.sample,
        f.phase is Descent || f.phase is Approach,
        f.lat is Some && f.lon is Some && f.dest_lat is Some && f.dest_lon is Some,
        f.divert_consecutive_polls < u32::MAX,
    ensures
        ({
            let (g, v) = f.diverted(update, Some(lat), Some(lon), Some(b), s);
            let away = b.deviation().micros > 90_000_000;
            &&& away ==> g.divert_consecutive_polls == f.divert_consecutive_polls + 1
            &&& !away ==> g.divert_consecutive_polls == 0
            &&& v.emits == if away && f.divert_consecutive_polls + 1 >= 3 {
                update.emits.push(EmitModel::PossibleDivert)
            } else {
                update.emits
            }
            &&& v.removal == update.removal
        }),
{
    reveal(FlightModel::diverted);
}

/// A flight that is not coming down does not divert.
pub proof fn law_only_sinking_flights_divert(
    f: FlightModel,
    update: UpdateModel,
    lat: Option<crate::decimal::Decimal>,
    lon: Option<crate::decimal::Decimal>,
    b: Option<Bearings>,
    s: Sighting,
)
    requires
        !(f.phase is Descent) && !(f.phase is Approach),
    ensures
        f.diverted(update, lat, lon, b, s).0.divert_consecutive_polls == 0,
        f.diverted(update, lat, lon, b, s).1 == update,
{
    reveal(FlightModel::diverted);
}

/// What is remembered of a flight is used. Where nothing is, the provider is asked if
/// it can be, and else nothing is known.
pub proof fn law_lookups_use_what_is_remembered(
    t: TrackerModel,
    callsign: Seq<char>,
    provider_enabled: bool,
    now: Timestamp,
)
    requires
        slice::trimmed(callsign).len() > 0,
    ensures
        ({
            let id = IdentifierModel::Callsign(callsign);
            let step = t.lookup_step(id, None, provider_enabled, now);
            let name = slice::uppercased(slice::trimmed(callsign));
            let known = exists|i: int|
                0 <= i < t.cache.len() && (#[trigger] t.cache[i]).expires_at.ticks > now.ticks
                    && metadata::knows(t.cache[i].aliases, name);
            &&& known ==> step is Done && step->Done_0.checked && !step->Done_0.failed
            &&& known ==> exists|i: int|
                0 <= i < t.cache.len() && (#[trigger] t.cache[i]).expires_at.ticks > now.ticks
                    && t.cache[i].metadata == step->Done_0.metadata
            &&& !known && provider_enabled ==> step is AskProvider && step->aliases == seq![name]
            &&& !known && !provider_enabled ==> step is Done && !step->Done_0.checked
                && step->Done_0.metadata is None
        }),
{
    let id = IdentifierModel::Callsign(callsign);
    let name = slice::uppercased(slice::trimmed(callsign));
    let aliases = cache::query_aliases(id, None);
    let none = Seq::<Seq<char>>::empty();
    assert(!metadata::knows(none, name));
    assert(aliases =~= seq![name]);
    cache::law_pruning_changes_no_answer(t.cache, aliases, now);
    cache::law_answers_are_newest(t.cache, aliases, now);
    assert forall|i: int| 0 <= i < t.cache.len() implies (#[trigger] t.cache[i]).serves(
        aliases,
        now,
    ) == (t.cache[i].expires_at.ticks > now.ticks && metadata::knows(t.cache[i].aliases, name)) by {
        assert(aliases[0] == name);
    }
}

/// The day of a flight is the one that the provider gives.
pub proof fn law_days_of_flights(m: MetadataModel, day: Seq<char>)
    ensures
        m.flight_date == Some(day) && slice::trimmed(day).len() > 0 ==> cache::flight_day(m)
            == Some(slice::trimmed(day)),
        m.flight_date is None && m.departure_scheduled is Some ==> cache::flight_day(m) == Some(
            time::utc_date_text(m.departure_scheduled->0.spec_secs()),
        ),
        m.flight_date is None && m.departure_scheduled is None && m.arrival_scheduled is Some
            ==> cache::flight_day(m) == Some(
            time::utc_date_text(m.arrival_scheduled->0.spec_secs()),
        ),
{
}

/// Results about the same flight go into one entry: they share an alias, and their
/// days do not differ.
pub proof fn law_results_of_one_flight_are_joined(
    e: CacheEntryModel,
    name: Seq<char>,
    day: Option<Seq<char>>,
)
    ensures
        e.joins(seq![name], day) <==> metadata::knows(e.aliases, name) && (day is None
            || e.flight_date is None || day->0 == e.flight_date->0),
{
    assert(seq![name][0] == name);
    if metadata::knows(e.aliases, name) {
        assert(cache::share(e.aliases, seq![name]));
    }
}

/// A new phase begins the count of polls anew and is dated.
pub proof fn law_new_phases_are_dated(f: FlightModel, obs: ObservationModel, now: Timestamp)
    requires
        f.target_confirmation is ConfirmedByCallsign || f.target_confirmation
            is InferredByAssignedHex,
        f.advanced(obs, now).0.phase != f.phase,
    ensures
        f.advanced(obs, now).0.polls_since_change == 0,
        f.advanced(obs, now).0.last_phase_change == Some(now),
{
    reveal(FlightModel::observed);
    reveal(FlightModel::phased);
    reveal(FlightModel::diverted);
}

/// A flight that was pending begins anew where its aircraft is first taken for it.
pub proof fn law_first_confirmations_begin_anew(f: FlightModel, s: Sighting)
    ensures
        s.became_confirmed && s.was_pending ==> f.restarted(s).phase is Unknown && f.restarted(
            s,
        ).polls_since_change == 0 && f.restarted(s).last_phase_change is None,
        !s.became_confirmed || !s.was_pending ==> f.restarted(s) == f,
{
}

/// A sighting makes a pending flight a confirmed one where the aircraft is taken for it.
pub proof fn law_sightings_confirm_pending_flights(
    f: FlightModel,
    ac: AircraftModel,
    used_hex: bool,
    now: Timestamp,
)
    requires
        f.target_confirmation is Pending,
    ensures
        ({
            let s = f.sighting(ac, TargetConfirmation::ConfirmedByCallsign, used_hex, now);
            let t = f.sighting(ac, TargetConfirmation::AircraftVisible, used_hex, now);
            &&& s.became_confirmed && s.was_pending && s.direct && s.sample && !s.sticky
            &&& s.confirmation is ConfirmedByCallsign
            &&& !t.became_confirmed && t.was_pending && !t.direct && !t.sample && !t.sticky
        }),
{
}

/// A poll that found a confirmed flight is no first contact.
pub proof fn law_known_flights_are_no_first_contacts(
    f: FlightModel,
    ac: AircraftModel,
    raw: TargetConfirmation,
    used_hex: bool,
    now: Timestamp,
)
    requires
        f.target_confirmation is ConfirmedByCallsign || f.target_confirmation
            is InferredByAssignedHex,
    ensures
        !f.sighting(ac, raw, used_hex, now).became_confirmed,
        !f.sighting(ac, raw, used_hex, now).was_pending,
{
}

/// A result that goes into an entry keeps the aliases of the entry, and adds its own.
pub proof fn law_joined_results_keep_aliases(
    all: Seq<CacheEntryModel>,
    query: Seq<Seq<char>>,
    m: Option<MetadataModel>,
    now: Timestamp,
    i: int,
)
    requires
        cache::place(all, query, m) == Some(i),
        query.len() > 0,
    ensures
        ({
            let after = cache::upserted(all, query, m, now);
            &&& after.len() == all.len()
            &&& all[i].aliases.is_prefix_of(after[i].aliases)
            &&& after[i].metadata == m
            &&& after[i].cached_at == now
            &&& after[i].flight_date == cache::stored_day(m)
        }),
{
    lists::lemma_first_where(
        all,
        |e: CacheEntryModel| e.joins(cache::stored_aliases(query, m), cache::stored_day(m)),
    );
    if m is Some {
        lemma_extends(query, cache::metadata_aliases(m->0));
    }
    lemma_extends(all[i].aliases, cache::stored_aliases(query, m));
}

proof fn lemma_extends(base: Seq<Seq<char>>, more: Seq<Seq<char>>)
    ensures
        base.is_prefix_of(cache::with_aliases(base, more)),
    decreases more.len(),
{
    if more.len() > 0 {
        lemma_extends(base, more.drop_last());
    }
}

/// A pending flight is polled once its interval has passed and its schedule has begun,
/// but no later than at the end of the present step.
pub proof fn law_steps_end_with_a_poll(
    f: FlightModel,
    now: Timestamp,
    interval: i64,
    starts_at: Timestamp,
    end: Timestamp,
    expires_at: Timestamp,
)
    requires
        f.pending(),
        f.pending_schedule(now) == (super::schedule::PendingPollSchedule::Active {
            interval,
            starts_at,
            refresh_at: Some(end),
            expires_at,
        }),
        now.ticks < expires_at.ticks,
    ensures
        f.readiness(now) is Due <==> starts_at.ticks <= now.ticks && (f.last_adsb_poll_at is Some
            ==> f.last_adsb_poll_at->0.spec_plus(interval as int).ticks <= now.ticks),
        f.readiness(now) matches PollReadiness::NotDue(t) ==> (now.ticks < end.ticks ==> t.ticks
            <= end.ticks) && t.ticks <= expires_at.ticks,
{
}

/// The answer to a track tells what metadata there is, and that there is none where it
/// was looked for under a callsign in vain.
pub proof fn law_answers_tell_of_the_metadata(
    r: RequestModel,
    callsign: Option<Seq<char>>,
    lookup: LookupModel,
    airports: Seq<PositionModel>,
    now: Timestamp,
)
    ensures
        ({
            let o = OpeningModel::of(r, callsign, lookup, airports, now);
            &&& o.request == r && o.now == now
            &&& lookup.metadata is Some ==> o.info == Some(lookup.metadata->0.info_text())
            &&& lookup.metadata is None ==> o.info is None
            &&& o.fallback <==> lookup.checked && lookup.metadata is None && r.identifier
                is Callsign
            &&& lookup.metadata is None ==> o.flight == metadata::seeded(
                FlightModel::requested(r, callsign, lookup.checked, now),
            )
        }),
{
    reveal(request::enriched);
}

/// An answer of the provider is remembered, also that it has nothing. A failure is not.
pub proof fn law_only_answers_are_remembered(
    t: TrackerModel,
    aliases: Seq<Seq<char>>,
    m: Option<MetadataModel>,
    now: Timestamp,
)
    ensures
        t.told(aliases, Err(()), now) == t,
        t.told(aliases, Ok(m), now).cache == cache::upserted(t.cache, aliases, m, now),
        t.told(aliases, Ok(m), now).flights == t.flights,
{
}

/// The outcome of a route lookup is recorded before the new track, unless nothing was
/// found for an aircraft that is not taken for the flight.
pub proof fn law_route_lookups_are_recorded(
    t: TrackerModel,
    o: OpeningModel,
    callsign: Seq<char>,
    quiet: bool,
    outcome: RouteOutcomeModel,
    airports: Seq<PositionModel>,
)
    ensures
        ({
            let j = t.on_route(o, callsign, quiet, outcome, airports).1.journal;
            &&& j.len() > 0 && j.last().event == "track_started"@
            &&& quiet && !(outcome is Found) ==> j.len() == 1
            &&& !quiet || outcome is Found ==> j.len() == 2 && j[0].event
                == "flight_route_lookup"@ && j[0].callsign == Some(callsign)
        }),
{
    reveal(TrackerModel::on_complete);
}

/// How a lookup went is recorded as it was.
pub proof fn law_outcomes_of_lookups(m: MetadataModel)
    ensures
        request::lookup_http(Some(m)).outcome == "success"@,
        request::lookup_http(None).outcome == "miss"@,
        request::lookup_http(Some(m)).provider == "aviationstack"@,
        request::route_http("timeout"@).outcome == "timeout"@,
        request::route_http("timeout"@).provider == "adsbdb"@,
{
}

/// A callsign that turns out to belong to a tracked flight is not tracked again.
pub proof fn law_resolved_duplicates_are_refused(
    t: TrackerModel,
    r: RequestModel,
    callsign: Seq<char>,
    airports: Seq<PositionModel>,
    now: Timestamp,
)
    requires
        !chars::same_ignoring_case(callsign, r.identifier.text()),
        commands::has_duplicate(t.flights, r.identifier, Some(callsign), None),
    ensures
        t.on_resolved(r, callsign, airports, now).0 == t,
        t.on_resolved(r, callsign, airports, now).1.next == (NextModel::Reply {
            text: r.identifier.text() + " wird bereits getrackt | Status: aktiv FDM"@,
            save: false,
        }),
{
}

/// A callsign that resolves to itself has its metadata looked up at once.
pub proof fn law_own_callsigns_are_looked_up(
    t: TrackerModel,
    r: RequestModel,
    callsign: Seq<char>,
    airports: Seq<PositionModel>,
    now: Timestamp,
)
    requires
        chars::same_ignoring_case(callsign, r.identifier.text()),
        t.lookup_step(r.identifier, Some(callsign), r.provider_enabled, now) is AskProvider,
    ensures
        t.on_resolved(r, callsign, airports, now).1.next is AskProvider,
        t.on_resolved(r, callsign, airports, now).1.next->AskProvider_request == r,
        t.on_resolved(r, callsign, airports, now).0.flights == t.flights,
{
}

/// A route is looked up before the track begins where the flight has none and goes by a
/// callsign, and only then.
pub proof fn law_missing_routes_are_looked_up(
    t: TrackerModel,
    o: OpeningModel,
    quiet: bool,
    journal: Seq<EventModel>,
)
    ensures
        ({
            let (u, s) = t.on_identified(o, quiet, journal);
            &&& o.flight.route is None && o.flight.callsign is Some ==> u == t && s.next == (
            NextModel::FetchRoute { opening: o, flies_as: o.flight.callsign->0, quiet })
            &&& o.flight.route is Some || o.flight.callsign is None ==> u.flights.len()
                == t.flights.len() + 1 && u.flights.last() == o.flight && s.next is Reply
        }),
{
    reveal(TrackerModel::on_identified);
    reveal(TrackerModel::on_complete);
}

/// Metadata is looked up once: not again where it was looked up before, and not without
/// a provider or a callsign.
pub proof fn law_metadata_is_looked_up_once(
    t: TrackerModel,
    o: OpeningModel,
    airports: Seq<PositionModel>,
    journal: Seq<EventModel>,
)
    ensures
        ({
            let (u, s) = t.on_searched(o, airports, journal);
            &&& s.next is AskAgain ==> o.request.provider_enabled
                && !o.flight.aviationstack_checked && o.flight.callsign is Some
            &&& s.next is AskAgain ==> s.next->AskAgain_opening.flight.aviationstack_checked
            &&& s.next is AskAgain ==> s.next->AskAgain_opening.flight == (FlightModel {
                aviationstack_checked: true,
                ..o.flight
            })
        }),
{
    reveal(TrackerModel::on_searched);
    reveal(TrackerModel::on_enriched);
    reveal(TrackerModel::on_identified);
    reveal(TrackerModel::on_complete);
}

/// An aircraft without a callsign at an address that the flight does not have is not
/// taken for it.
pub proof fn law_unknown_addresses_prove_nothing(
    t: TrackerModel,
    o: OpeningModel,
    hex: Seq<char>,
    ac: AircraftModel,
    airports: Seq<PositionModel>,
)
    requires
        o.flight.hex is None,
        ac.callsign() is None,
        !o.request.provider_enabled,
    ensures
        t.on_polled(o, QueryModel::Hex(hex), OutcomeModel::Hit(ac), airports).0 == t,
        t.on_polled(o, QueryModel::Hex(hex), OutcomeModel::Hit(ac), airports).1.next is Reply,
        !t.on_polled(o, QueryModel::Hex(hex), OutcomeModel::Hit(ac), airports).1.next->save,
{
    reveal(TrackerModel::on_polled);
}

/// Nobody looks for the aircraft of a new track that departs in more than three hours.
pub proof fn law_early_tracks_are_not_polled(
    t: TrackerModel,
    r: RequestModel,
    callsign: Option<Seq<char>>,
    lookup: LookupModel,
    cache_hit: bool,
    airports: Seq<PositionModel>,
    now: Timestamp,
    departure: Timestamp,
)
    requires
        lookup.metadata is Some,
        lookup.metadata->0.departure_scheduled == Some(departure),
        departure.spec_since(now) > 10_800 * 1_000_000_000,
    ensures
        !(t.on_lookup(r, callsign, lookup, cache_hit, airports, now).1.next is Poll),
{
    reveal(TrackerModel::on_lookup);
    reveal(request::enriched);
    reveal(TrackerModel::on_searched);
    reveal(TrackerModel::on_enriched);
    reveal(TrackerModel::on_identified);
    reveal(TrackerModel::on_complete);
}

/// The lookup of metadata for a callsign is recorded before the aircraft is looked for,
/// and an address has none.
pub proof fn law_metadata_lookups_are_recorded(
    t: TrackerModel,
    r: RequestModel,
    callsign: Option<Seq<char>>,
    lookup: LookupModel,
    cache_hit: bool,
    airports: Seq<PositionModel>,
    now: Timestamp,
)
    requires
        t.on_lookup(r, callsign, lookup, cache_hit, airports, now).1.next is Poll,
    ensures
        ({
            let s = t.on_lookup(r, callsign, lookup, cache_hit, airports, now).1;
            &&& r.identifier is Callsign ==> s.journal.len() == 1 && s.journal[0].event
                == "aviationstack_metadata"@ && s.journal[0].callsign == callsign
            &&& r.identifier is Hex ==> s.journal.len() == 0
            &&& s.next->Poll_opening.request == r
        }),
{
    reveal(TrackerModel::on_lookup);
    reveal(TrackerModel::on_searched);
    reveal(TrackerModel::on_enriched);
    reveal(TrackerModel::on_identified);
    reveal(TrackerModel::on_complete);
}

/// A track that begins without its aircraft remembers that it was looked for.
pub proof fn law_polls_are_remembered(
    t: TrackerModel,
    o: OpeningModel,
    query: QueryModel,
    airports: Seq<PositionModel>,
)
    requires
        o.request.identifier is Callsign,
        o.request.provider_enabled,
        o.flight.aviationstack_checked,
        o.flight.route is Some,
        !commands::has_duplicate(
            t.flights,
            o.request.identifier,
            o.flight.callsign,
            o.flight.hex,
        ),
    ensures
        ({
            let u = t.on_polled(o, query, OutcomeModel::Timeout, airports).0;
            &&& u.flights.len() == t.flights.len() + 1
            &&& u.flights.last() == (FlightModel { last_adsb_poll_at: Some(o.now), ..o.flight })
        }),
{
    reveal(TrackerModel::on_polled);
    reveal(TrackerModel::on_searched);
    reveal(TrackerModel::on_enriched);
    reveal(TrackerModel::on_identified);
    reveal(TrackerModel::on_complete);
}

/// The coordinates of a destination are those of the airport of arrival.
pub proof fn law_destinations_are_arrivals(airports: Seq<PositionModel>, m: MetadataModel)
    ensures
        m.arrival_iata is Some ==> request::arrival_coords(airports, m)
            == airports::destination_coords(airports, m.arrival_iata->0),
        m.arrival_iata is None ==> request::arrival_coords(airports, m) is None,
{
}

} // verus!
