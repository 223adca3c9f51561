//! What the entries of the journal tell.

use vstd::prelude::*;

use super::debug_journal;
use super::debug_journal::{DiversionDebugInput, HttpOutcomeModel, PollInputModel};
use super::{FlightModel, IdentifierModel};
use crate::aviation::types::{AircraftModel, AltBaro, MetadataModel};
use crate::decimal::Decimal;
use crate::json;
use crate::json::JsonModel;

verus! {

/// The members tell this under the name.
pub open spec fn tells(
    members: Seq<(Seq<char>, JsonModel)>,
    name: Seq<char>,
    value: JsonModel,
) -> bool {
    members.contains((name, value))
}

/// A text where there is one.
pub open spec fn text_or_null(o: Option<Seq<char>>, j: JsonModel) -> bool {
    &&& o is Some ==> j == JsonModel::Text(o->0)
    &&& o is None ==> j == JsonModel::Null
}

proof fn lemma_tells(members: Seq<(Seq<char>, JsonModel)>, i: int)
    requires
        0 <= i < members.len(),
    ensures
        tells(members, members[i].0, members[i].1),
{
    assert(members[i] == (members[i].0, members[i].1));
}

/// Every entry about a flight names what was asked for, the callsign, the address, the
/// phase and the confirmation of the flight.
pub proof fn law_entries_name_their_flight(f: FlightModel, name: Seq<char>)
    ensures
        ({
            let e = f.event(name);
            &&& e.event == name
            &&& e.identifier == f.identifier.text()
            &&& e.callsign == f.callsign
            &&& e.hex == f.hex
            &&& e.phase == Some(f.phase.name())
            &&& e.target_confirmation == Some(f.target_confirmation.name())
            &&& e.ts is None
        }),
{
}

/// Each kind of entry has its own name.
pub proof fn law_entries_have_their_names(
    f: FlightModel,
    input: PollInputModel,
    d: DiversionDebugInput,
    a: Seq<char>,
    b: Seq<char>,
    age: Option<i64>,
    reset: bool,
    h: HttpOutcomeModel,
)
    ensures
        debug_journal::poll_event(f, input).event == "adsb_poll_result"@,
        debug_journal::removal_event(f, a, age).event == "tracking_removal"@,
        debug_journal::phase_event(f, a, b, reset).event == "phase_transition"@,
        debug_journal::diversion_event(f, d).event == "diversion_decision"@,
        debug_journal::track_event(f, a).event == "track_started"@,
        debug_journal::hex_event(f, None, None, None, None).event == "hex_assignment"@,
        debug_journal::lookup_event(a, None, h, None, None, reset).event
            == "flight_route_lookup"@,
        debug_journal::lookup_event(a, None, h, None, None, reset).identifier == a,
{
}

/// An entry about a change of phase tells the old phase, the new one and the last
/// known height, climb and speed.
pub proof fn law_phase_entries(f: FlightModel, a: Seq<char>, b: Seq<char>, reset: bool)
    ensures
        ({
            let m = debug_journal::phase_members(f, a, b, reset);
            &&& tells(m, "old_phase"@, JsonModel::Text(a))
            &&& tells(m, "new_phase"@, JsonModel::Text(b))
            &&& tells(m, "altitude_ft"@, json::opt_int_model(f.altitude_ft))
            &&& tells(m, "vertical_rate_fpm"@, json::opt_int_model(f.vertical_rate_fpm))
            &&& tells(m, "ground_speed_kts"@, json::opt_dec_model(f.ground_speed_kts))
            &&& tells(m, "takeoff_reset"@, JsonModel::Bool(reset))
        }),
{
    let m = debug_journal::phase_members(f, a, b, reset);
    lemma_tells(m, 0);
    lemma_tells(m, 1);
    lemma_tells(m, 2);
    lemma_tells(m, 3);
    lemma_tells(m, 4);
    lemma_tells(m, 5);
}

/// An entry about a possible diversion tells the last position, the present one, the
/// destination, the two angles and the count.
pub proof fn law_diversion_entries(d: DiversionDebugInput)
    ensures
        ({
            let m = debug_journal::diversion_members(d);
            let at = |lat: Decimal, lon: Decimal|
                JsonModel::Object(seq![("lat"@, JsonModel::Dec(lat)), ("lon"@, JsonModel::Dec(lon))]);
            &&& tells(m, "previous_position"@, at(d.previous_lat, d.previous_lon))
            &&& tells(m, "current_position"@, at(d.current_lat, d.current_lon))
            &&& tells(m, "destination_position"@, at(d.destination_lat, d.destination_lon))
            &&& tells(m, "ground_track"@, JsonModel::Dec(d.ground_track))
            &&& tells(m, "bearing_to_dest"@, JsonModel::Dec(d.bearing_to_dest))
            &&& tells(m, "diff"@, JsonModel::Dec(d.diff))
            &&& tells(m, "threshold"@, JsonModel::Dec(d.threshold))
            &&& tells(m, "anomalous"@, JsonModel::Bool(d.anomalous))
            &&& tells(m, "counter_before"@, JsonModel::Int(d.counter_before as int))
            &&& tells(m, "counter_after"@, JsonModel::Int(d.counter_after as int))
            &&& tells(m, "alert_emitted"@, JsonModel::Bool(d.alert_emitted))
        }),
{
    let m = debug_journal::diversion_members(d);
    assert forall|i: int| 0 <= i < m.len() implies tells(m, (#[trigger] m[i]).0, m[i].1) by {
        lemma_tells(m, i);
    }
    assert(m[0].0 == "previous_position"@ && m[1].0 == "current_position"@ && m[2].0
        == "destination_position"@);
    assert(m[3].0 == "ground_track"@ && m[4].0 == "bearing_to_dest"@ && m[5].0 == "diff"@
        && m[6].0 == "threshold"@);
    assert(m[7].0 == "anomalous"@ && m[8].0 == "counter_before"@ && m[9].0 == "counter_after"@
        && m[10].0 == "alert_emitted"@);
}

/// An entry about a poll tells how the aircraft was looked for and what came of it.
pub proof fn law_poll_entries(p: PollInputModel)
    ensures
        ({
            let m = debug_journal::poll_members(p);
            &&& tells(m, "lookup_mode"@, JsonModel::Text(p.lookup_mode))
            &&& tells(m, "outcome"@, JsonModel::Text(p.outcome))
            &&& tells(
                m,
                "direct_target_confirmed"@,
                json::opt_bool_model(p.direct_target_confirmed),
            )
            &&& tells(m, "sticky_confirmation"@, json::opt_bool_model(p.sticky_confirmation))
            &&& tells(m, "phase_sample_eligible"@, json::opt_bool_model(p.phase_sample_eligible))
            &&& tells(m, "last_seen_age_secs"@, json::opt_int_model(p.last_seen_age_secs))
            &&& p.aircraft is None ==> tells(m, "selected_aircraft"@, JsonModel::Null)
        }),
{
    let m = debug_journal::poll_members(p);
    assert forall|i: int| 0 <= i < m.len() implies tells(m, (#[trigger] m[i]).0, m[i].1) by {
        lemma_tells(m, i);
    }
    assert(m[0].0 == "lookup_mode"@ && m[2].0 == "outcome"@ && m[3].0 == "selected_aircraft"@);
    assert(m[4].0 == "direct_target_confirmed"@ && m[5].0 == "sticky_confirmation"@ && m[6].0
        == "phase_sample_eligible"@ && m[7].0 == "last_seen_age_secs"@);
}

/// The summary of an aircraft tells what the aircraft reports, each value under its
/// name.
pub proof fn law_aircraft_summaries(ac: AircraftModel)
    ensures
        ({
            let m = debug_journal::aircraft_members(ac);
            &&& tells(m, "lat"@, json::opt_dec_model(ac.lat))
            &&& tells(m, "lon"@, json::opt_dec_model(ac.lon))
            &&& tells(m, "ground_speed_kts"@, json::opt_dec_model(ac.gs))
            &&& tells(m, "baro_rate"@, json::opt_int_model(ac.baro_rate))
            &&& tells(m, "seen_pos"@, json::opt_dec_model(ac.seen_pos))
            &&& tells(m, "hex"@, json::opt_text_model(ac.hex))
            &&& tells(m, "flight"@, json::opt_text_model(ac.callsign()))
            &&& tells(m, "aircraft_type"@, json::opt_text_model(ac.t))
            &&& ac.alt_baro is None ==> tells(m, "altitude_baro"@, JsonModel::Null)
            &&& ac.alt_baro == Some(AltBaro::Ground) ==> tells(
                m,
                "altitude_baro"@,
                JsonModel::Text("ground"@),
            )
        }),
{
    let m = debug_journal::aircraft_members(ac);
    assert forall|i: int| 0 <= i < m.len() implies tells(m, (#[trigger] m[i]).0, m[i].1) by {
        lemma_tells(m, i);
    }
    assert(m[0].0 == "hex"@ && m[1].0 == "flight"@ && m[2].0 == "aircraft_type"@ && m[3].0
        == "altitude_baro"@);
    assert(m[4].0 == "lat"@ && m[5].0 == "lon"@ && m[6].0 == "ground_speed_kts"@ && m[7].0
        == "baro_rate"@ && m[8].0 == "seen_pos"@);
}

/// The summary of metadata tells the airports and times, each under its name.
pub proof fn law_metadata_summaries(x: MetadataModel)
    ensures
        ({
            let m = debug_journal::metadata_members(x);
            &&& tells(m, "flight_iata"@, json::opt_text_model(x.flight_iata))
            &&& tells(m, "flight_icao"@, json::opt_text_model(x.flight_icao))
            &&& tells(m, "departure_iata"@, json::opt_text_model(x.departure_iata))
            &&& tells(m, "arrival_iata"@, json::opt_text_model(x.arrival_iata))
            &&& tells(
                m,
                "departure_scheduled"@,
                debug_journal::opt_time_model(x.departure_scheduled),
            )
            &&& tells(m, "departure_actual"@, debug_journal::opt_time_model(x.departure_actual))
            &&& tells(m, "arrival_actual"@, debug_journal::opt_time_model(x.arrival_actual))
            &&& tells(m, "aircraft_icao24"@, json::opt_text_model(x.aircraft_icao24))
            &&& tells(m, "aircraft_icao"@, json::opt_text_model(x.aircraft_icao))
        }),
{
    let m = debug_journal::metadata_members(x);
    assert forall|i: int| 0 <= i < m.len() implies tells(m, (#[trigger] m[i]).0, m[i].1) by {
        lemma_tells(m, i);
    }
    assert(m[0].0 == "flight_iata"@ && m[1].0 == "flight_icao"@ && m[2].0 == "departure_iata"@
        && m[3].0 == "arrival_iata"@);
    assert(m[4].0 == "departure_scheduled"@ && m[5].0 == "departure_actual"@ && m[6].0
        == "arrival_actual"@ && m[7].0 == "aircraft_icao24"@ && m[8].0 == "aircraft_icao"@);
}

/// An entry about a flight tells who tracks it and its route from the origin to the
/// destination.
pub proof fn law_flight_members(f: FlightModel, from: Seq<char>, to: Seq<char>)
    ensures
        ({
            let m = debug_journal::flight_members(f);
            &&& tells(m, "tracked_by"@, JsonModel::Text(f.tracked_by))
            &&& tells(m, "aircraft_type"@, json::opt_text_model(f.aircraft_type))
            &&& tells(
                m,
                "scheduled_departure_at"@,
                debug_journal::opt_time_model(f.scheduled_departure_at),
            )
            &&& f.route is None ==> tells(m, "route"@, JsonModel::Null)
            &&& f.route == Some((from, to)) ==> tells(
                m,
                "route"@,
                JsonModel::Object(
                    seq![
                        ("origin"@, JsonModel::Text(from)),
                        ("destination"@, JsonModel::Text(to)),
                        (
                            "destination_coordinates_resolved"@,
                            JsonModel::Bool(f.dest_lat is Some && f.dest_lon is Some),
                        ),
                    ],
                ),
            )
        }),
{
    let m = debug_journal::flight_members(f);
    assert forall|i: int| 0 <= i < m.len() implies tells(m, (#[trigger] m[i]).0, m[i].1) by {
        lemma_tells(m, i);
    }
    assert(m[0].0 == "tracked_by"@ && m[1].0 == "route"@ && m[2].0 == "scheduled_departure_at"@
        && m[3].0 == "aircraft_type"@);
}

/// Entries about changes tell what was before and what is now.
pub proof fn law_change_entries(
    a: Seq<char>,
    b: Seq<char>,
    x: Option<Seq<char>>,
    y: Option<Seq<char>>,
    s: Option<Seq<char>>,
    t: Option<Seq<char>>,
)
    ensures
        tells(
            debug_journal::confirmation_members(a, b),
            "old_target_confirmation"@,
            JsonModel::Text(a),
        ),
        tells(
            debug_journal::confirmation_members(a, b),
            "new_target_confirmation"@,
            JsonModel::Text(b),
        ),
        tells(debug_journal::hex_members(x, y, s, t), "old_hex"@, json::opt_text_model(x)),
        tells(debug_journal::hex_members(x, y, s, t), "new_hex"@, json::opt_text_model(y)),
        tells(debug_journal::hex_members(x, y, s, t), "old_hex_source"@, json::opt_text_model(s)),
        tells(debug_journal::hex_members(x, y, s, t), "new_hex_source"@, json::opt_text_model(t)),
{
    let c = debug_journal::confirmation_members(a, b);
    let h = debug_journal::hex_members(x, y, s, t);
    lemma_tells(c, 0);
    lemma_tells(c, 1);
    lemma_tells(h, 0);
    lemma_tells(h, 1);
    lemma_tells(h, 2);
    lemma_tells(h, 3);
}

/// Entries about the beginning and the end of a track tell who asked for it, and why
/// it ended.
pub proof fn law_track_entries(f: FlightModel, asked: Seq<char>, reason: Seq<char>, age: Option<i64>)
    ensures
        tells(
            debug_journal::track_members(f, asked),
            "original_identifier"@,
            JsonModel::Text(asked),
        ),
        tells(
            debug_journal::track_members(f, asked),
            "normalized_identifier"@,
            JsonModel::Text(f.identifier.text()),
        ),
        tells(debug_journal::track_members(f, asked), "user"@, JsonModel::Text(f.tracked_by)),
        tells(
            debug_journal::removal_members(f, reason, age),
            "reason"@,
            JsonModel::Text(reason),
        ),
        tells(
            debug_journal::removal_members(f, reason, age),
            "last_seen_age_secs"@,
            json::opt_int_model(age),
        ),
{
    let t = debug_journal::track_members(f, asked);
    let r = debug_journal::removal_members(f, reason, age);
    lemma_tells(t, 0);
    lemma_tells(t, 1);
    lemma_tells(t, 2);
    lemma_tells(r, 0);
    lemma_tells(r, 2);
}

/// Entries about lookups tell what was asked, how it went, and where the flight goes.
pub proof fn law_lookup_entries(
    id: IdentifierModel,
    callsign: Option<Seq<char>>,
    h: HttpOutcomeModel,
    from: Option<Seq<char>>,
    to: Option<Seq<char>>,
    flag: bool,
)
    ensures
        ({
            let l = debug_journal::lookup_members(h, from, to, flag);
            let e = debug_journal::enrichment_members(id, callsign, h, None, flag);
            &&& tells(l, "http"@, h.json())
            &&& tells(l, "origin_iata"@, json::opt_text_model(from))
            &&& tells(l, "destination_iata"@, json::opt_text_model(to))
            &&& tells(l, "destination_coordinates_resolved"@, JsonModel::Bool(flag))
            &&& tells(e, "http"@, h.json())
            &&& tells(e, "cache_hit"@, JsonModel::Bool(flag))
            &&& tells(e, "metadata"@, JsonModel::Null)
        }),
{
    let l = debug_journal::lookup_members(h, from, to, flag);
    let e = debug_journal::enrichment_members(id, callsign, h, None, flag);
    lemma_tells(l, 0);
    lemma_tells(l, 1);
    lemma_tells(l, 2);
    lemma_tells(l, 3);
    lemma_tells(e, 1);
    lemma_tells(e, 2);
    lemma_tells(e, 3);
}

/// The outcome of a request tells the provider, what was asked and how it went.
pub proof fn law_outcomes(h: HttpOutcomeModel, status: u16)
    ensures
        h.json() matches JsonModel::Object(m) && tells(m, "provider"@, JsonModel::Text(h.provider))
            && tells(m, "endpoint_kind"@, JsonModel::Text(h.endpoint_kind)) && tells(
            m,
            "outcome"@,
            JsonModel::Text(h.outcome),
        ) && (h.status == Some(status) ==> tells(m, "status"@, JsonModel::Int(status as int))),
{
    if let JsonModel::Object(m) = h.json() {
        lemma_tells(m, 0);
        lemma_tells(m, 1);
        lemma_tells(m, 2);
        if h.status is Some {
            lemma_tells(m, 3);
        }
    }
}

/// What is not known is null, and everything else is what it is.
pub proof fn law_optional_values(
    o: Option<Seq<char>>,
    n: Option<i64>,
    d: Option<Decimal>,
    b: Option<bool>,
)
    ensures
        text_or_null(o, json::opt_text_model(o)),
        n is Some ==> json::opt_int_model(n) == JsonModel::Int(n->0 as int),
        d is Some ==> json::opt_dec_model(d) == JsonModel::Dec(d->0),
        b is Some ==> json::opt_bool_model(b) == JsonModel::Bool(b->0),
        n is None ==> json::opt_int_model(n) is Null,
        d is None ==> json::opt_dec_model(d) is Null,
        b is None ==> json::opt_bool_model(b) is Null,
{
}

} // verus!
