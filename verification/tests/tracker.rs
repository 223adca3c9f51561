use serde_json::Value;
use twitch_1337::aviation::tracker::advance::{
    advance_flight, apply_observed_aircraft, format_emit, Bearings, Emit, Followup, Observation,
    PollOutcome, RemovalReason,
};
use twitch_1337::aviation::tracker::commands::{
    aircraft_matches_tracked_callsign, find_flight_index,
};
use twitch_1337::aviation::tracker::debug_journal::{
    DebugHttpOutcome, DiversionDebugInput, FlightTrackerDebugEvent,
};
use twitch_1337::aviation::tracker::format::{
    msg_flight_status, msg_flights_list, msg_landing, msg_pending_expired, msg_track_started,
    msg_tracking_lost,
};
use twitch_1337::aviation::tracker::journal_files::{debug_journal_file, stale_journals};
use twitch_1337::aviation::tracker::metadata::apply_aviationstack_metadata;
use twitch_1337::aviation::tracker::phase::{
    detect_phase, emergency_squawk_meaning, update_divert_counter, CRUISE_STABLE_POLLS,
};
use twitch_1337::aviation::tracker::schedule::{
    next_poll_at, pending_poll_schedule, poll_readiness, PendingPollSchedule, PollReadiness,
};
use twitch_1337::aviation::tracker::state::{
    backfill_visible_anchor, build_flight_view, clear_pending_callsign_hexes,
    migrate_target_confirmations,
};
use twitch_1337::aviation::tracker::{
    FlightIdentifier, FlightPhase, FlightTrackerState, HexSource, TargetConfirmation,
    TrackedFlight,
};
use twitch_1337::aviation::types::{AltBaro, AviationstackFlightMetadata, NearbyAircraft};
use twitch_1337::decimal::Decimal;
use twitch_1337::json::Json;
use twitch_1337::time::{parse_rfc3339, Timestamp};

fn dt(value: &str) -> Timestamp {
    parse_rfc3339(value).unwrap()
}

fn dec(x: f64) -> Option<Decimal> {
    Some(Decimal { micros: (x * 1_000_000.0).round() as i64 })
}

fn value(j: Json) -> Value {
    match j {
        Json::Null => Value::Null,
        Json::Bool(b) => Value::from(b),
        Json::Int(n) => Value::from(n),
        Json::Dec(d) => Value::from(d.micros as f64 / 1_000_000.0),
        Json::Text(s) => Value::from(s),
        Json::List(items) => Value::Array(items.into_iter().map(value).collect()),
        Json::Object(members) => {
            Value::Object(members.into_iter().map(|(k, v)| (k, value(v))).collect())
        }
    }
}

fn tracked_flight() -> TrackedFlight {
    TrackedFlight {
        identifier: FlightIdentifier::Callsign("DLH1234".to_string()),
        callsign: Some("DLH1234".to_string()),
        alias_callsigns: vec!["DLH1234".to_string()],
        hex: None,
        hex_source: None,
        observed_callsign: None,
        target_confirmation: TargetConfirmation::Pending,
        phase: FlightPhase::Unknown,
        route: None,
        aircraft_type: None,
        altitude_ft: None,
        vertical_rate_fpm: None,
        ground_speed_kts: None,
        lat: None,
        lon: None,
        squawk: None,
        tracked_by: "alice".to_string(),
        tracked_at: dt("2026-04-18T10:00:00Z"),
        last_seen: None,
        last_visible_at: None,
        last_phase_change: None,
        polls_since_change: 0,
        takeoff_at: None,
        aviationstack_checked: false,
        scheduled_departure_at: None,
        last_adsb_poll_at: None,
        divert_consecutive_polls: 0,
        dest_lat: None,
        dest_lon: None,
    }
}

fn landing_flight() -> TrackedFlight {
    TrackedFlight { phase: FlightPhase::Landing, ..tracked_flight() }
}

fn tracked_flight_with(phase: FlightPhase, polls_since_change: u32) -> TrackedFlight {
    TrackedFlight { phase, polls_since_change, ..tracked_flight() }
}

/// A flight whose aircraft is visible, under another callsign.
fn visible_flight() -> TrackedFlight {
    TrackedFlight {
        identifier: FlightIdentifier::Callsign("DLH1929".to_string()),
        callsign: Some("DLH1929".to_string()),
        alias_callsigns: Vec::new(),
        hex: Some("3C6497".to_string()),
        hex_source: Some(HexSource::Adsb),
        observed_callsign: Some("DLH9999".to_string()),
        target_confirmation: TargetConfirmation::AircraftVisible,
        phase: FlightPhase::Cruise,
        altitude_ft: Some(12_000),
        vertical_rate_fpm: Some(-1_800),
        ground_speed_kts: dec(280.0),
        lat: dec(52.4),
        lon: dec(13.5),
        squawk: Some("1000".to_string()),
        tracked_at: dt("2026-04-18T12:00:00Z"),
        last_seen: Some(dt("2026-04-18T12:01:00Z")),
        last_visible_at: Some(dt("2026-04-18T12:01:00Z")),
        aviationstack_checked: true,
        scheduled_departure_at: Some(dt("2026-04-18T12:00:00Z")),
        last_adsb_poll_at: Some(dt("2026-04-18T12:32:00Z")),
        ..tracked_flight()
    }
}

fn state_of(flights: Vec<TrackedFlight>) -> FlightTrackerState {
    FlightTrackerState { flights, flight_info_cache: Vec::new() }
}

fn aircraft_on_ground() -> NearbyAircraft {
    NearbyAircraft {
        hex: Some("3C6589".to_string()),
        flight: Some("DLH1234".to_string()),
        r: None,
        t: None,
        alt_baro: Some(AltBaro::Ground),
        lat: dec(50.0),
        lon: dec(8.5),
        gs: dec(15.0),
        baro_rate: Some(0),
        geom_rate: None,
        squawk: Some("1000".to_string()),
        nav_modes: None,
        rssi: None,
        seen_pos: None,
    }
}

/// An aircraft in the air, under another callsign than `tracked_flight()`.
fn aircraft() -> NearbyAircraft {
    NearbyAircraft {
        hex: Some("3C6497".to_string()),
        flight: Some("DLH1929".to_string()),
        alt_baro: Some(AltBaro::Feet(12_000)),
        lat: dec(52.4),
        lon: dec(13.5),
        gs: dec(280.0),
        baro_rate: Some(-1_800),
        ..aircraft_on_ground()
    }
}

fn aircraft_at(altitude_ft: i64, baro_rate: i64) -> NearbyAircraft {
    NearbyAircraft {
        hex: Some("4952c3".to_string()),
        flight: Some("TAP247".to_string()),
        t: Some("A339".to_string()),
        alt_baro: Some(AltBaro::Feet(altitude_ft)),
        lat: dec(38.0),
        lon: dec(-30.0),
        gs: dec(450.0),
        baro_rate: Some(baro_rate),
        ..aircraft_on_ground()
    }
}

fn observation(used_hex: bool, outcome: PollOutcome) -> Observation {
    Observation { used_hex, aliases: Vec::new(), outcome, bearings: None }
}

fn hit(ac: NearbyAircraft, used_hex: bool) -> Observation {
    observation(used_hex, PollOutcome::Hit(ac))
}

fn miss(used_hex: bool) -> Observation {
    observation(used_hex, PollOutcome::Miss)
}

fn metadata() -> AviationstackFlightMetadata {
    AviationstackFlightMetadata::blank()
}

/// The initial bearing of the great circle from one point to another.
fn initial_bearing(lat1: f64, lon1: f64, lat2: f64, lon2: f64) -> f64 {
    let (a, b, d) = (lat1.to_radians(), lat2.to_radians(), (lon2 - lon1).to_radians());
    let y = d.sin() * b.cos();
    let x = a.cos() * b.sin() - a.sin() * b.cos() * d.cos();
    (y.atan2(x).to_degrees() + 360.0) % 360.0
}

fn degrees(d: Option<Decimal>) -> f64 {
    d.unwrap().micros as f64 / 1_000_000.0
}

#[test]
fn apply_observed_aircraft_seeds_identity_and_telemetry() {
    let mut f = tracked_flight();
    let mut ac = aircraft_on_ground();
    ac.t = Some("A320".to_string());

    let newly =
        apply_observed_aircraft(&mut f, &ac, TargetConfirmation::ConfirmedByCallsign, true);

    assert_eq!(f.target_confirmation, TargetConfirmation::ConfirmedByCallsign);
    assert_eq!(f.observed_callsign.as_deref(), Some("DLH1234"));
    assert_eq!(f.hex.as_deref(), Some("3C6589"));
    assert_eq!(f.hex_source, Some(HexSource::Adsb));
    assert_eq!(f.aircraft_type.as_deref(), Some("A320"));
    assert_eq!(f.ground_speed_kts, dec(15.0));
    assert_eq!(f.lat, dec(50.0));
    assert_eq!(f.lon, dec(8.5));
    assert_eq!(f.squawk.as_deref(), Some("1000"));
    assert_eq!(newly, None);
    assert_eq!(f.last_seen, None);
    assert_eq!(f.last_visible_at, None);
    assert_eq!(f.phase, FlightPhase::Unknown);
}

#[test]
fn apply_observed_aircraft_resolves_callsign_for_hex_tracked_flight() {
    let mut f = tracked_flight();
    f.identifier = FlightIdentifier::Hex("3C6497".to_string());
    f.callsign = None;
    f.alias_callsigns = Vec::new();

    let ac = aircraft();

    let newly =
        apply_observed_aircraft(&mut f, &ac, TargetConfirmation::InferredByAssignedHex, false);

    assert_eq!(newly.as_deref(), Some("DLH1929"));
    assert_eq!(f.callsign.as_deref(), Some("DLH1929"));
    assert!(f.alias_callsigns.iter().any(|a| a == "DLH1929"));
    assert_eq!(f.observed_callsign.as_deref(), Some("DLH1929"));
}

#[test]
fn miss_within_grace_window_keeps_flight() {
    let mut f = tracked_flight();
    f.last_visible_at = Some(dt("2026-04-18T12:00:00Z"));
    let upd = advance_flight(&mut f, &miss(true), dt("2026-04-18T12:05:00Z"));
    assert_eq!(upd.removal, None);
    assert!(upd.emits.is_empty());
}

#[test]
fn miss_past_removal_threshold_removes_and_emits_tracking_lost() {
    let mut f = tracked_flight();
    f.last_visible_at = Some(dt("2026-04-18T12:00:00Z"));
    let upd = advance_flight(&mut f, &miss(true), dt("2026-04-18T12:31:00Z"));
    assert_eq!(upd.removal, Some(RemovalReason::TrackingLost { secs: 31 * 60 }));
    assert_eq!(upd.emits, vec![Emit::TrackingLost]);
}

#[test]
fn sticky_confirmation_keeps_prior_when_hex_visible_within_threshold() {
    let mut f = tracked_flight();
    f.target_confirmation = TargetConfirmation::ConfirmedByCallsign;
    f.last_seen = Some(dt("2026-04-18T12:00:00Z"));
    let mut ac = aircraft();
    ac.flight = Some("DLH9999".to_string());
    let upd = advance_flight(&mut f, &hit(ac, true), dt("2026-04-18T12:02:00Z"));
    assert_eq!(f.target_confirmation, TargetConfirmation::ConfirmedByCallsign);
    assert_eq!(f.last_visible_at, Some(dt("2026-04-18T12:02:00Z")));
    assert_eq!(upd.removal, None);
    assert!(!upd.emits.contains(&Emit::TrackingLost));
}

#[test]
fn format_emit_landing_preserves_flight_time_from_carried_takeoff() {
    let flight = tracked_flight();
    let msg = format_emit(
        &flight,
        &Emit::Landing { takeoff_at: Some(dt("2026-04-18T10:30:00Z")) },
        dt("2026-04-18T12:00:00Z"),
    );

    assert!(msg.contains("Flugzeit: 1h30m"), "got: {msg}");
    assert!(!msg.contains("unbekannt"), "got: {msg}");
}

#[test]
fn advance_landing_carries_pre_clear_takeoff_at_and_clears_flight_state() {
    let mut flight = tracked_flight();
    flight.target_confirmation = TargetConfirmation::ConfirmedByCallsign;
    flight.phase = FlightPhase::Approach;
    let takeoff = dt("2026-04-18T10:30:00Z");
    flight.takeoff_at = Some(takeoff);

    let update =
        advance_flight(&mut flight, &hit(aircraft_on_ground(), false), dt("2026-04-18T12:00:00Z"));

    assert!(
        update.emits.iter().any(|emit| matches!(
            emit,
            Emit::Landing { takeoff_at } if *takeoff_at == Some(takeoff)
        )),
        "expected Emit::Landing carrying the pre-clear takeoff, got: {:?}",
        update.emits
    );
    assert_eq!(flight.phase, FlightPhase::Ground);
    assert_eq!(flight.takeoff_at, None);
}

#[test]
fn ground_to_airborne_sets_takeoff_at() {
    let mut f = tracked_flight();
    f.target_confirmation = TargetConfirmation::ConfirmedByCallsign;
    f.phase = FlightPhase::Ground;
    f.takeoff_at = None;

    let mut ac = aircraft();
    ac.flight = Some("DLH1234".to_string());
    ac.alt_baro = Some(AltBaro::Feet(1_500));
    ac.baro_rate = Some(2_500);
    ac.gs = dec(180.0);

    let now = dt("2026-04-18T12:10:00Z");
    let upd = advance_flight(&mut f, &hit(ac, false), now);

    assert_eq!(f.phase, FlightPhase::Takeoff, "phase = {:?}", f.phase);
    assert_eq!(f.takeoff_at, Some(now));
    assert!(
        upd.emits.iter().any(|e| matches!(e, Emit::Takeoff)),
        "expected Emit::Takeoff, got: {:?}",
        upd.emits
    );
}

#[test]
fn newly_resolved_callsign_with_no_route_emits_fetch_route_followup() {
    let mut f = tracked_flight();
    f.identifier = FlightIdentifier::Hex("3C6497".to_string());
    f.callsign = None;
    f.route = None;
    let mut ac = aircraft();
    ac.flight = Some("DLH1929".to_string());
    let upd = advance_flight(&mut f, &hit(ac, true), dt("2026-04-18T12:05:00Z"));
    assert_eq!(f.callsign.as_deref(), Some("DLH1929"));
    assert_eq!(upd.followups, vec![Followup::FetchRoute { callsign: "DLH1929".to_string() }]);
}

#[test]
fn first_target_confirmation_resets_phase_and_emits_adsb_visible() {
    let mut f = tracked_flight();
    f.target_confirmation = TargetConfirmation::Pending;
    f.last_visible_at = None;
    f.phase = FlightPhase::Cruise;
    let mut ac = aircraft();
    ac.flight = Some("DLH1234".to_string());
    let upd = advance_flight(&mut f, &hit(ac, false), dt("2026-04-18T12:05:00Z"));
    assert!(
        f.target_confirmation.is_target_confirmed(),
        "expected target_confirmation to be confirmed, got: {:?}",
        f.target_confirmation
    );
    assert!(
        upd.emits.iter().any(|e| matches!(e, Emit::AdsbVisible)),
        "expected Emit::AdsbVisible on first confirmation, got: {:?}",
        upd.emits
    );
}

#[test]
fn sustained_off_heading_in_descent_eventually_emits_possible_divert() {
    let mut f = tracked_flight();
    f.target_confirmation = TargetConfirmation::ConfirmedByCallsign;
    f.phase = FlightPhase::Descent;
    f.dest_lat = dec(48.35);
    f.dest_lon = dec(11.78);
    f.lat = dec(51.5);
    f.lon = dec(13.0);

    let mut emitted = false;
    for i in 0..6_i32 {
        let mut ac = aircraft();
        ac.flight = Some("DLH1234".to_string());
        ac.alt_baro = Some(AltBaro::Feet(8_000));
        ac.baro_rate = Some(-1_500);
        let (lat, lon) = (52.0 + f64::from(i) * 0.5, 13.0);
        ac.lat = dec(lat);
        ac.lon = dec(lon);
        let mut obs = hit(ac, false);
        obs.bearings = Some(Bearings {
            ground_track: dec(initial_bearing(degrees(f.lat), degrees(f.lon), lat, lon)).unwrap(),
            bearing_to_dest: dec(initial_bearing(lat, lon, 48.35, 11.78)).unwrap(),
        });
        let upd = advance_flight(&mut f, &obs, dt("2026-04-18T12:05:00Z"));
        if upd.emits.iter().any(|e| matches!(e, Emit::PossibleDivert)) {
            emitted = true;
            break;
        }
    }
    assert!(emitted, "expected PossibleDivert after sustained off-heading polls");
}

fn check_unanswered(outcome: PollOutcome, used_hex: bool, now: Timestamp) {
    let mut f = tracked_flight();
    let before = tracked_flight();
    let upd = advance_flight(&mut f, &observation(used_hex, outcome), now);

    assert_eq!(f.last_adsb_poll_at, Some(now));
    assert!(upd.emits.is_empty(), "must not emit: {:?}", upd.emits);
    assert!(upd.removal.is_none(), "must not remove: {:?}", upd.removal);
    assert!(upd.followups.is_empty(), "must not produce followups: {:?}", upd.followups);
    assert!(!upd.debug.is_empty(), "must record a debug event");
    assert_eq!(f.altitude_ft, before.altitude_ft);
    assert_eq!(f.lat, before.lat);
    assert_eq!(f.lon, before.lon);
    assert_eq!(f.vertical_rate_fpm, before.vertical_rate_fpm);
    assert_eq!(f.ground_speed_kts, before.ground_speed_kts);
    assert_eq!(f.squawk, before.squawk);
}

#[test]
fn error_outcome_sets_poll_at_and_records_debug_event_only() {
    check_unanswered(PollOutcome::Error, true, dt("2026-04-18T12:00:00Z"));
}

#[test]
fn timeout_outcome_sets_poll_at_and_records_debug_event_only() {
    check_unanswered(PollOutcome::Timeout, false, dt("2026-04-18T12:01:00Z"));
}

#[test]
fn squawk_7700_on_confirmed_flight_emits_squawk_emergency() {
    let mut f = tracked_flight();
    f.target_confirmation = TargetConfirmation::ConfirmedByCallsign;
    f.last_seen = Some(dt("2026-04-18T12:00:00Z"));
    f.squawk = Some("1000".to_string());

    let mut ac = aircraft_on_ground();
    ac.flight = Some("DLH1234".to_string());
    ac.squawk = Some("7700".to_string());

    let now = dt("2026-04-18T12:02:00Z");
    let upd = advance_flight(&mut f, &hit(ac, false), now);

    let expected_meaning = emergency_squawk_meaning("7700").unwrap();
    assert!(
        upd.emits.iter().any(|e| matches!(
            e,
            Emit::SquawkEmergency { code, meaning }
                if code == "7700" && meaning == expected_meaning
        )),
        "expected SquawkEmergency(7700, {expected_meaning:?}), got: {:?}",
        upd.emits
    );
}

#[test]
fn unconfirmed_aircraft_early_return_does_not_bump_visible_or_polls() {
    let mut f = tracked_flight();
    f.target_confirmation = TargetConfirmation::Pending;
    let known_visible_at = dt("2026-04-18T11:00:00Z");
    f.last_visible_at = Some(known_visible_at);
    let known_polls = 5u32;
    f.polls_since_change = known_polls;

    let mut ac = aircraft();
    ac.flight = Some("DLH9999".to_string());

    let now = dt("2026-04-18T12:00:00Z");
    let upd = advance_flight(&mut f, &hit(ac, false), now);

    assert_eq!(f.last_adsb_poll_at, Some(now));
    assert_eq!(f.last_visible_at, Some(known_visible_at));
    assert_eq!(f.polls_since_change, known_polls);
    assert!(upd.emits.is_empty(), "must not emit: {:?}", upd.emits);
    assert!(upd.removal.is_none(), "must not remove: {:?}", upd.removal);
    assert!(upd.followups.is_empty(), "must not produce followups: {:?}", upd.followups);
    assert!(upd.debug.is_empty(), "must not record debug events: {:?}", upd.debug);
}

#[test]
fn clear_pending_callsign_hexes_drops_untrusted_hex_only_before_adsb_seen() {
    let mut pending_callsign = landing_flight();
    pending_callsign.hex = Some("48C2A2".to_string());

    let mut aviationstack_pending = landing_flight();
    aviationstack_pending.hex = Some("4CA87D".to_string());
    aviationstack_pending.hex_source = Some(HexSource::AviationStack);

    let mut live_callsign = landing_flight();
    live_callsign.hex = Some("3C6589".to_string());
    live_callsign.last_seen = Some(dt("2026-04-18T11:00:00Z"));

    let mut pending_hex_identifier = landing_flight();
    pending_hex_identifier.identifier = FlightIdentifier::Hex("48C2A2".to_string());
    pending_hex_identifier.hex = Some("48C2A2".to_string());

    let mut state = state_of(vec![
        pending_callsign,
        aviationstack_pending,
        live_callsign,
        pending_hex_identifier,
    ]);

    assert_eq!(clear_pending_callsign_hexes(&mut state), 1);
    assert_eq!(state.flights[0].hex, None);
    assert_eq!(state.flights[0].hex_source, None);
    assert_eq!(state.flights[1].hex.as_deref(), Some("4CA87D"));
    assert_eq!(state.flights[2].hex.as_deref(), Some("3C6589"));
    assert_eq!(state.flights[3].hex.as_deref(), Some("48C2A2"));
}

#[test]
fn aircraft_matches_tracked_callsign_rejects_reused_airframe() {
    let mut flight = landing_flight();
    flight.identifier = FlightIdentifier::Callsign("FR196".to_string());
    flight.callsign = Some("RYR196".to_string());
    let matching =
        NearbyAircraft { flight: Some(" RYR196 ".to_string()), ..aircraft_at(34_000, 0) };
    let reused_airframe =
        NearbyAircraft { flight: Some("RYR58JX ".to_string()), ..aircraft_at(34_000, 0) };
    let missing_callsign = NearbyAircraft { flight: None, ..aircraft_at(34_000, 0) };

    assert!(aircraft_matches_tracked_callsign(&matching, &flight));
    assert!(!aircraft_matches_tracked_callsign(&reused_airframe, &flight));
    assert!(!aircraft_matches_tracked_callsign(&missing_callsign, &flight));
}

fn pending_interval(flight: &TrackedFlight, now: Timestamp) -> i64 {
    match pending_poll_schedule(flight, now) {
        PendingPollSchedule::Active { interval, .. } => interval,
        PendingPollSchedule::Expired => panic!("expected active pending schedule"),
    }
}

fn assert_pending_expired(flight: &TrackedFlight, now: Timestamp) {
    assert_eq!(pending_poll_schedule(flight, now), PendingPollSchedule::Expired);
}

const PENDING_POLL_60_SEC: i64 = 60;
const PENDING_POLL_2_MIN: i64 = 120;
const PENDING_POLL_5_MIN: i64 = 300;
const PENDING_POLL_10_MIN: i64 = 600;
const PENDING_POLL_15_MIN: i64 = 900;
const PENDING_POLL_30_MIN: i64 = 1800;

#[test]
fn landing_uses_takeoff_time_not_tracking_time() {
    let mut flight = landing_flight();
    flight.takeoff_at = Some(dt("2026-04-18T10:30:00Z"));

    let msg = msg_landing(&flight, flight.takeoff_at, dt("2026-04-18T12:00:00Z"));

    assert!(msg.contains("Flugzeit: 1h30m"), "got: {msg}");
    assert!(!msg.contains("2h00m"), "got: {msg}");
}

#[test]
fn landing_reports_unknown_duration_without_takeoff_time() {
    let flight = landing_flight();

    let msg = msg_landing(&flight, flight.takeoff_at, dt("2026-04-18T12:00:00Z"));

    assert!(msg.contains("Flugzeit: unbekannt (Takeoff nicht beobachtet)"), "got: {msg}");
}

#[test]
fn aviationstack_metadata_sets_route_and_actual_runway_takeoff() {
    let mut flight = landing_flight();
    let mut m = metadata();
    m.departure_iata = Some("fra".to_string());
    m.arrival_iata = Some("muc".to_string());
    m.departure_scheduled = Some(dt("2026-04-18T09:45:00Z"));
    m.departure_actual = Some(dt("2026-04-18T10:00:00Z"));
    m.departure_actual_runway = Some(dt("2026-04-18T10:05:00Z"));
    m.aircraft_icao24 = Some("3c6589".to_string());
    m.aircraft_icao = Some("a320".to_string());

    apply_aviationstack_metadata(&mut flight, &m, None);

    assert_eq!(flight.route, Some(("FRA".to_string(), "MUC".to_string())));
    assert_eq!(flight.scheduled_departure_at, Some(dt("2026-04-18T09:45:00Z")));
    assert_eq!(flight.takeoff_at, Some(dt("2026-04-18T10:05:00Z")));
    assert_eq!(flight.hex.as_deref(), Some("3C6589"));
    assert_eq!(flight.hex_source, Some(HexSource::AviationStack));
    assert_eq!(flight.aircraft_type.as_deref(), Some("A320"));
}

#[test]
fn aviationstack_metadata_falls_back_to_actual_departure() {
    let mut flight = landing_flight();
    let mut m = metadata();
    m.departure_actual = Some(dt("2026-04-18T10:00:00Z"));

    apply_aviationstack_metadata(&mut flight, &m, None);

    assert_eq!(flight.takeoff_at, Some(dt("2026-04-18T10:00:00Z")));
}

#[test]
fn aviationstack_metadata_replaces_existing_resolved_callsign() {
    let mut flight = landing_flight();
    flight.callsign = Some("EZY123".to_string());
    flight.alias_callsigns = vec!["U2123".to_string(), "EZY123".to_string()];
    let mut m = metadata();
    m.flight_iata = Some("U2123".to_string());
    m.flight_icao = Some("EJU123".to_string());

    apply_aviationstack_metadata(&mut flight, &m, None);

    assert_eq!(flight.callsign.as_deref(), Some("EJU123"));
    assert!(flight.alias_callsigns.iter().any(|alias| alias == "EZY123"));
    assert!(flight.alias_callsigns.iter().any(|alias| alias == "EJU123"));
}

#[test]
fn aviationstack_metadata_preserves_static_callsign_as_alias() {
    let mut flight = landing_flight();
    flight.identifier = FlightIdentifier::Callsign("AF1234".to_string());
    flight.callsign = Some("AFR1234".to_string());
    flight.alias_callsigns = vec!["AF1234".to_string(), "AFR1234".to_string()];
    let mut m = metadata();
    m.flight_iata = Some("AF1234".to_string());
    m.flight_icao = Some("KLM1234".to_string());

    apply_aviationstack_metadata(&mut flight, &m, None);

    assert_eq!(flight.callsign.as_deref(), Some("KLM1234"));
    assert_eq!(
        flight.alias_callsigns,
        vec!["AF1234".to_string(), "AFR1234".to_string(), "KLM1234".to_string()]
    );
}

#[test]
fn aviationstack_metadata_can_upgrade_iata_callsign_to_icao() {
    let mut flight = landing_flight();
    flight.callsign = Some("LH1929".to_string());
    let mut m = metadata();
    m.flight_iata = Some("LH1929".to_string());
    m.flight_icao = Some("DLH1929".to_string());

    apply_aviationstack_metadata(&mut flight, &m, None);

    assert_eq!(flight.callsign.as_deref(), Some("DLH1929"));
}

fn departing_at_noon() -> TrackedFlight {
    TrackedFlight { scheduled_departure_at: Some(dt("2026-04-18T12:00:00Z")), ..landing_flight() }
}

#[test]
fn pending_poll_schedule_uses_sparse_interval_far_before_departure() {
    let flight = departing_at_noon();

    assert_eq!(pending_interval(&flight, dt("2026-04-18T05:59:00Z")), PENDING_POLL_15_MIN);
}

#[test]
fn pending_poll_schedule_uses_issue_259_pre_departure_ramp() {
    let flight = departing_at_noon();

    assert_eq!(pending_interval(&flight, dt("2026-04-18T09:01:00Z")), PENDING_POLL_15_MIN);
    assert_eq!(pending_interval(&flight, dt("2026-04-18T11:01:00Z")), PENDING_POLL_5_MIN);
    assert_eq!(pending_interval(&flight, dt("2026-04-18T11:31:00Z")), PENDING_POLL_60_SEC);
}

#[test]
fn pending_poll_schedule_slows_after_departure_window() {
    let flight = departing_at_noon();

    assert_eq!(pending_interval(&flight, dt("2026-04-18T13:00:00Z")), PENDING_POLL_5_MIN);
    assert_eq!(pending_interval(&flight, dt("2026-04-18T15:01:00Z")), PENDING_POLL_15_MIN);
}

#[test]
fn pending_poll_schedule_expires_scheduled_flights() {
    let flight = departing_at_noon();

    assert_pending_expired(&flight, dt("2026-04-19T00:00:00Z"));
}

#[test]
fn next_poll_at_strict_chills_until_three_hours_before_departure() {
    let mut flight = landing_flight();
    let now = dt("2026-04-18T10:00:00Z");
    flight.scheduled_departure_at = Some(dt("2026-04-18T15:00:00Z"));
    flight.last_adsb_poll_at = None;

    assert_eq!(next_poll_at(&[flight], now), Some(dt("2026-04-18T12:00:00Z")));
}

#[test]
fn flights_that_depart_in_a_leap_second_are_waited_for() {
    let mut flight = landing_flight();
    flight.scheduled_departure_at = Some(dt("2015-06-30T23:59:60Z"));
    flight.tracked_at = dt("2015-06-30T12:00:00Z");
    let next = next_poll_at(&[flight], dt("2015-06-30T18:00:00Z"));
    assert_eq!(next, Some(dt("2015-06-30T21:00:00Z")));
}

#[test]
fn next_poll_at_wakes_at_scheduled_cadence_boundaries() {
    let mut flight = departing_at_noon();
    let now = dt("2026-04-18T10:59:00Z");
    flight.last_adsb_poll_at = Some(dt("2026-04-18T10:50:00Z"));

    assert_eq!(next_poll_at(&[flight], now), Some(dt("2026-04-18T11:00:00Z")));
}

#[test]
fn pending_poll_schedule_ramps_unknown_departure_and_expires() {
    let flight = landing_flight();

    assert_eq!(pending_interval(&flight, dt("2026-04-18T10:05:00Z")), PENDING_POLL_2_MIN);
    assert_eq!(pending_interval(&flight, dt("2026-04-18T10:10:00Z")), PENDING_POLL_10_MIN);
    assert_eq!(pending_interval(&flight, dt("2026-04-18T16:00:00Z")), PENDING_POLL_30_MIN);
    assert_pending_expired(&flight, dt("2026-04-19T10:00:00Z"));
}

#[test]
fn next_poll_at_respects_pending_due_time() {
    let mut flight = landing_flight();
    let now = dt("2026-04-18T10:00:00Z");
    flight.scheduled_departure_at = Some(dt("2026-04-18T10:30:00Z"));
    flight.last_adsb_poll_at = Some(now);

    assert_eq!(next_poll_at(&[flight], now), Some(dt("2026-04-18T10:01:00Z")));
}

#[test]
fn next_poll_at_keeps_live_fast_interval_for_recent_changes() {
    let mut flight = tracked_flight_with(FlightPhase::Unknown, 0);
    let now = dt("2026-04-18T10:00:00Z");
    flight.target_confirmation = TargetConfirmation::ConfirmedByCallsign;
    flight.last_seen = Some(now);
    flight.last_adsb_poll_at = Some(now);

    assert_eq!(next_poll_at(&[flight], now), Some(dt("2026-04-18T10:00:30Z")));
}

#[test]
fn divert_alert_repeats_after_consecutive_poll_threshold() {
    let mut divert_consecutive_polls = 0;

    assert!(!update_divert_counter(&mut divert_consecutive_polls, true));
    assert_eq!(divert_consecutive_polls, 1);
    assert!(!update_divert_counter(&mut divert_consecutive_polls, true));
    assert_eq!(divert_consecutive_polls, 2);
    assert!(update_divert_counter(&mut divert_consecutive_polls, true));
    assert_eq!(divert_consecutive_polls, 3);
    assert!(update_divert_counter(&mut divert_consecutive_polls, true));
    assert_eq!(divert_consecutive_polls, 4);
    assert!(update_divert_counter(&mut divert_consecutive_polls, true));
    assert_eq!(divert_consecutive_polls, 5);

    assert!(!update_divert_counter(&mut divert_consecutive_polls, false));
    assert_eq!(divert_consecutive_polls, 0);

    assert!(!update_divert_counter(&mut divert_consecutive_polls, true));
    assert_eq!(divert_consecutive_polls, 1);
    assert!(!update_divert_counter(&mut divert_consecutive_polls, true));
    assert_eq!(divert_consecutive_polls, 2);
    assert!(update_divert_counter(&mut divert_consecutive_polls, true));
    assert_eq!(divert_consecutive_polls, 3);
}

#[test]
fn detect_phase_keeps_descent_during_high_altitude_level_off() {
    let flight = tracked_flight_with(FlightPhase::Descent, CRUISE_STABLE_POLLS);
    let ac = aircraft_at(34_000, 0);

    assert_eq!(detect_phase(&flight, &ac), FlightPhase::Descent);
}

#[test]
fn detect_phase_keeps_approach_during_high_altitude_level_off() {
    let flight = tracked_flight_with(FlightPhase::Approach, CRUISE_STABLE_POLLS);
    let ac = aircraft_at(12_000, 0);

    assert_eq!(detect_phase(&flight, &ac), FlightPhase::Approach);
}

#[test]
fn detect_phase_still_detects_cruise_from_non_descent_phase() {
    let flight = tracked_flight_with(FlightPhase::Climb, CRUISE_STABLE_POLLS);
    let ac = aircraft_at(34_000, 0);

    assert_eq!(detect_phase(&flight, &ac), FlightPhase::Cruise);
}

#[test]
fn parse_accepts_six_char_hex() {
    let id = FlightIdentifier::parse("4ca87d").unwrap();
    assert_eq!(id, FlightIdentifier::Hex("4CA87D".to_string()));
}

#[test]
fn parse_treats_six_char_iata_flight_numbers_as_callsigns() {
    let id = FlightIdentifier::parse("DE1513").unwrap();
    assert_eq!(id, FlightIdentifier::Callsign("DE1513".to_string()));

    let id = FlightIdentifier::parse("AF1234").unwrap();
    assert_eq!(id, FlightIdentifier::Callsign("AF1234".to_string()));

    let id = FlightIdentifier::parse("BA1234").unwrap();
    assert_eq!(id, FlightIdentifier::Callsign("BA1234".to_string()));
}

#[test]
fn parse_prefers_iata_over_valid_icao24_hex() {
    let id = FlightIdentifier::parse("AB1234").unwrap();
    assert_eq!(id, FlightIdentifier::Callsign("AB1234".to_string()));
    assert!(FlightIdentifier::is_valid_icao24_hex("AB1234"));
}

#[test]
fn aircraft_matches_tracked_callsign_accepts_alias_callsigns() {
    let mut flight = landing_flight();
    flight.identifier = FlightIdentifier::Callsign("AF1234".to_string());
    flight.callsign = Some("KLM1234".to_string());
    flight.alias_callsigns =
        vec!["AF1234".to_string(), "AFR1234".to_string(), "KLM1234".to_string()];
    let operating_carrier =
        NearbyAircraft { flight: Some(" AFR1234 ".to_string()), ..aircraft_at(34_000, 0) };

    assert!(aircraft_matches_tracked_callsign(&operating_carrier, &flight));
}

#[test]
fn find_flight_index_matches_alias_callsigns() {
    let mut flight = landing_flight();
    flight.identifier = FlightIdentifier::Callsign("AF1234".to_string());
    flight.callsign = Some("KLM1234".to_string());
    flight.alias_callsigns = vec!["AF1234".to_string(), "AFR1234".to_string()];
    let state = state_of(vec![flight]);

    assert_eq!(find_flight_index(&state.flights, "afr1234"), Some(0));
}

#[test]
fn parse_accepts_alphanumeric_callsign() {
    let id = FlightIdentifier::parse("DLH1234").unwrap();
    assert_eq!(id, FlightIdentifier::Callsign("DLH1234".to_string()));
}

#[test]
fn parse_accepts_eight_char_callsign() {
    let id = FlightIdentifier::parse("RYR1234A").unwrap();
    assert_eq!(id, FlightIdentifier::Callsign("RYR1234A".to_string()));
}

#[test]
fn parse_rejects_path_traversal() {
    assert!(FlightIdentifier::parse("../foo").is_err());
    assert!(FlightIdentifier::parse("a/b").is_err());
}

#[test]
fn parse_rejects_too_long_callsign() {
    assert!(FlightIdentifier::parse("ABCDEFGHI").is_err());
}

#[test]
fn parse_rejects_non_ascii() {
    assert!(FlightIdentifier::parse("DLH1ä34").is_err());
}

#[test]
fn parse_rejects_empty() {
    assert!(FlightIdentifier::parse("").is_err());
    assert!(FlightIdentifier::parse("   ").is_err());
}

#[test]
fn build_flight_view_returns_one_entry_per_flight() {
    let flight_a = TrackedFlight {
        identifier: FlightIdentifier::Callsign("EZY100".to_string()),
        callsign: Some("EZY100".to_string()),
        phase: FlightPhase::Cruise,
        altitude_ft: Some(35_000),
        ground_speed_kts: dec(480.0),
        tracked_by: "alice".to_string(),
        last_seen: None,
        ..landing_flight()
    };
    let flight_b = TrackedFlight {
        identifier: FlightIdentifier::Hex("4CA87D".to_string()),
        callsign: None,
        hex: Some("4CA87D".to_string()),
        phase: FlightPhase::Ground,
        altitude_ft: Some(0),
        ground_speed_kts: dec(0.0),
        tracked_by: "bob".to_string(),
        last_seen: None,
        ..landing_flight()
    };

    let state = state_of(vec![flight_a, flight_b]);
    let now = dt("2026-05-12T10:00:00Z");

    let views = build_flight_view(&state, now);

    assert_eq!(views.len(), 2);

    assert_eq!(views[0].identifier, "EZY100");
    assert_eq!(views[0].owner_login, "alice");
    assert_eq!(views[0].phase, "Cruise");
    assert_eq!(views[0].altitude_ft, Some(35_000));
    assert!(views[0].last_seen_secs_ago.is_none());

    assert_eq!(views[1].identifier, "4CA87D");
    assert_eq!(views[1].owner_login, "bob");
    assert_eq!(views[1].phase, "Ground");
    assert!(views[1].callsign.is_none());
}

#[test]
fn build_flight_view_computes_last_seen_secs_ago() {
    let seen_at = dt("2026-05-12T09:59:00Z");
    let now = dt("2026-05-12T10:00:00Z");

    let state = state_of(vec![TrackedFlight { last_seen: Some(seen_at), ..landing_flight() }]);

    let views = build_flight_view(&state, now);

    assert_eq!(views[0].last_seen_secs_ago, Some(60));
}

#[test]
fn build_flight_view_falls_back_identifier_to_flight_identifier_display() {
    let flight = TrackedFlight {
        identifier: FlightIdentifier::Callsign("RYR42".to_string()),
        callsign: None,
        hex: None,
        ..landing_flight()
    };

    let state = state_of(vec![flight]);
    let now = dt("2026-05-12T10:00:00Z");

    let views = build_flight_view(&state, now);

    assert_eq!(views[0].identifier, "RYR42");
}

#[test]
fn debug_journal_appends_to_date_named_jsonl() {
    let now = dt("2026-04-18T10:00:00Z");

    assert_eq!(debug_journal_file(now), "2026-04-18.jsonl");
    let line = value(
        FlightTrackerDebugEvent::track_started(&landing_flight(), "lh1234")
            .with_timestamp(now)
            .into_json(),
    )
    .to_string();
    assert_eq!(line.lines().count(), 1);

    let event: Value = serde_json::from_str(&line).unwrap();
    assert_eq!(event["event"], "track_started");
    assert_eq!(event["ts"], "2026-04-18T10:00:00Z");
    assert_eq!(event["identifier"], "DLH1234");
    assert_eq!(event["original_identifier"], "lh1234");
    assert_eq!(event["normalized_identifier"], "DLH1234");
}

#[test]
fn journals_keep_leap_seconds() {
    let now = dt("2016-12-31T23:59:60Z");
    assert_eq!(debug_journal_file(now), "2016-12-31.jsonl");
    let flight = TrackedFlight { scheduled_departure_at: Some(now), ..landing_flight() };
    let event = value(
        FlightTrackerDebugEvent::track_started(&flight, "DLH1234").with_timestamp(now).into_json(),
    );
    assert_eq!(event["ts"], "2016-12-31T23:59:60Z");
    assert_eq!(event["scheduled_departure_at"], "2016-12-31T23:59:60Z");
}

#[test]
fn lookups_tell_whether_the_cache_answered() {
    for cache_hit in [true, false] {
        let event = value(
            FlightTrackerDebugEvent::aviationstack_metadata(
                &FlightIdentifier::Callsign("DLH1234".to_string()),
                None,
                &DebugHttpOutcome::miss("aviationstack", "flight_metadata"),
                None,
                cache_hit,
            )
            .into_json(),
        );
        assert_eq!(event["cache_hit"], cache_hit);
        assert_eq!(event["query"]["identifier"], "DLH1234");
        assert_eq!(event["metadata"], Value::Null);
    }
}

#[test]
fn debug_journal_serialization_excludes_raw_bodies_and_secrets() {
    let event = FlightTrackerDebugEvent::aviationstack_metadata(
        &FlightIdentifier::Callsign("DLH1234".to_string()),
        Some("DLH1234"),
        &DebugHttpOutcome::client_response("aviationstack", "flight_metadata", 403),
        None,
        false,
    );

    let json = value(event.into_json()).to_string();
    assert!(json.contains("\"status\":403"));
    assert!(json.contains("client_response"));
    assert!(!json.contains("access_key"));
    assert!(!json.contains("test-key"));
    assert!(!json.contains("raw_body"));

    let forbidden =
        value(DebugHttpOutcome::forbidden_parked("adsb.one", "hex", 403).to_json()).to_string();
    assert!(forbidden.contains("forbidden_parked"));
    assert!(forbidden.contains("\"status\":403"));

    let rate_limited =
        value(DebugHttpOutcome::rate_limited("adsb.lol", "hex").to_json()).to_string();
    assert!(rate_limited.contains("rate_limited"));
    assert!(rate_limited.contains("\"status\":429"));
}

#[test]
fn debug_journal_diversion_decision_records_bearings_and_counter() {
    let event = FlightTrackerDebugEvent::diversion_decision(
        &TrackedFlight {
            phase: FlightPhase::Approach,
            target_confirmation: TargetConfirmation::ConfirmedByCallsign,
            route: Some(("FRA".to_string(), "MUC".to_string())),
            dest_lat: dec(48.3538),
            dest_lon: dec(11.7861),
            ..landing_flight()
        },
        DiversionDebugInput {
            previous_lat: dec(49.0).unwrap(),
            previous_lon: dec(9.0).unwrap(),
            current_lat: dec(49.2).unwrap(),
            current_lon: dec(8.5).unwrap(),
            destination_lat: dec(48.3538).unwrap(),
            destination_lon: dec(11.7861).unwrap(),
            ground_track: dec(280.0).unwrap(),
            bearing_to_dest: dec(110.0).unwrap(),
            diff: dec(170.0).unwrap(),
            threshold: dec(90.0).unwrap(),
            anomalous: true,
            counter_before: 2,
            counter_after: 3,
            alert_emitted: true,
        },
    );

    let json = value(event.into_json());
    assert_eq!(json["event"], "diversion_decision");
    assert_eq!(json["phase"], "Approach");
    assert_eq!(json["target_confirmation"], "ConfirmedByCallsign");
    assert_eq!(json["ground_track"], 280.0);
    assert_eq!(json["bearing_to_dest"], 110.0);
    assert_eq!(json["counter_before"], 2);
    assert_eq!(json["counter_after"], 3);
    assert_eq!(json["alert_emitted"], true);
    assert_eq!(json["route"]["destination"], "MUC");
}

#[test]
fn prune_debug_journals_keeps_newest_n_files() {
    let names: Vec<String> = [
        "2026-01-03.jsonl",
        "2026-01-01.jsonl",
        "2026-01-05.jsonl",
        "notes.txt",
        "2026-01-02.jsonl",
        "2026-01-04.jsonl",
    ]
    .iter()
    .map(|s| s.to_string())
    .collect();

    let stale = stale_journals(&names, 2);

    let mut left: Vec<&String> = names.iter().filter(|n| !stale.contains(n)).collect();
    left.sort();
    assert_eq!(left, ["2026-01-04.jsonl", "2026-01-05.jsonl", "notes.txt"]);
}

fn members(list: &[(&str, Json)]) -> Vec<(String, Json)> {
    list.iter()
        .map(|(k, v)| {
            let v = match v {
                Json::Int(n) => Json::Int(*n),
                Json::Text(s) => Json::Text(s.clone()),
                _ => Json::Null,
            };
            (k.to_string(), v)
        })
        .collect()
}

fn text(s: &str) -> Json {
    Json::Text(s.to_string())
}

#[test]
fn append_debug_event_writes_jsonl_partitioned_by_date() {
    let now = dt("2026-04-18T10:00:00Z");
    let route = Json::Object(members(&[("origin", text("FRA")), ("destination", text("MUC"))]));
    let event = FlightTrackerDebugEvent::new("track_started", "DLH1234")
        .callsign("DLH1234")
        .hex("3C6589")
        .phase("Unknown")
        .target_confirmation("Pending")
        .payload(&vec![("route".to_string(), route)]);
    assert_eq!(debug_journal_file(now), "2026-04-18.jsonl");
    let value = value(event.with_timestamp(now).into_json());
    assert_eq!(value["event"], "track_started");
    assert_eq!(value["ts"], "2026-04-18T10:00:00Z");
    assert_eq!(value["identifier"], "DLH1234");
    assert_eq!(value["callsign"], "DLH1234");
    assert_eq!(value["hex"], "3C6589");
    assert_eq!(value["phase"], "Unknown");
    assert_eq!(value["target_confirmation"], "Pending");
    assert_eq!(value["route"]["destination"], "MUC");
}

#[test]
fn append_debug_event_never_persists_secrets_or_raw_bodies() {
    let now = dt("2026-04-18T10:00:00Z");
    let event = FlightTrackerDebugEvent::new("aviationstack_metadata", "DLH1234").payload(
        &members(&[
            ("provider", text("aviationstack")),
            (
                "url",
                text("https://api.example/flights?access_key=secret-value&flight_icao=DLH1234"),
            ),
            ("access_key", text("secret-value")),
            ("raw_body", text("{\"secret\":\"secret-value\"}")),
            ("body", text("do not store this")),
            ("status", Json::Int(403)),
        ]),
    );
    let contents = value(event.with_timestamp(now).into_json()).to_string();
    assert!(!contents.contains("secret-value"), "{contents}");
    assert!(!contents.contains("raw_body"), "{contents}");
    assert!(!contents.contains("do not store this"), "{contents}");
    assert!(contents.contains("access_key=<redacted>"), "{contents}");
}

fn status_flight(hex: Option<&str>) -> TrackedFlight {
    TrackedFlight {
        hex: hex.map(str::to_string),
        target_confirmation: TargetConfirmation::ConfirmedByCallsign,
        ..visible_flight()
    }
}

#[test]
fn msg_track_started_includes_key_tokens_when_hex_known() {
    let msg = msg_track_started(&status_flight(Some("3C6589")));

    for token in ["Tracking gestartet", "DLH1929", "Status: aktiv", "icao=3c6589"] {
        assert!(msg.contains(token), "missing {token:?} in {msg}");
    }
}

#[test]
fn msg_track_started_omits_adsb_link_without_hex() {
    let msg = msg_track_started(&status_flight(None));

    assert!(msg.contains("Tracking gestartet"));
    assert!(msg.contains("DLH1929"));
    assert!(!msg.contains("adsbexchange"));
}

#[test]
fn msg_flight_status_includes_snapshot_tokens_when_hex_known() {
    let now = dt("2026-04-18T12:30:00Z");
    let mut flight = status_flight(Some("3C6589"));
    flight.route = Some(("FRA".to_string(), "MUC".to_string()));

    let msg = msg_flight_status(&flight, now);

    for token in [
        "DLH1929",
        "Phase: Cruise",
        "Höhe: FL120",
        "Geschwindigkeit: 280kt",
        "Route: FRA→MUC",
        "Letzte Sichtung: vor 29m",
        "Status:",
        "icao=3c6589",
    ] {
        assert!(msg.contains(token), "missing {token:?} in {msg}");
    }
}

#[test]
fn msg_flight_status_omits_adsb_link_without_hex() {
    let now = dt("2026-04-18T12:30:00Z");

    let msg = msg_flight_status(&status_flight(None), now);

    assert!(msg.contains("DLH1929"));
    assert!(msg.contains("Phase: Cruise"));
    assert!(msg.contains("Route: ?"));
    assert!(!msg.contains("adsbexchange"));
}

#[test]
fn msg_flights_list_is_compact_but_contains_status_route_and_speed() {
    let mut flight = status_flight(Some("3C6589"));
    flight.route = Some(("FRA".to_string(), "MUC".to_string()));

    let msg = msg_flights_list(&[flight]);

    for token in ["Aktive Tracks", "DLH1929", "Cruise", "FL120", "280kt", "FRA→MUC"] {
        assert!(msg.contains(token), "missing {token:?} in {msg}");
    }
}

#[test]
fn removal_messages_include_status_and_reason() {
    let flight = status_flight(Some("3C6589"));

    let lost = msg_tracking_lost(&flight);
    for token in ["Tracking lost", "DLH1929", "Status", "Grund", "ADS-B"] {
        assert!(lost.contains(token), "missing {token:?} in {lost}");
    }

    let pending = msg_pending_expired(&flight);
    for token in ["automatisch entfernt", "DLH1929", "Status", "Grund", "ADS-B"] {
        assert!(pending.contains(token), "missing {token:?} in {pending}");
    }
}

#[test]
fn aircraft_visible_without_target_confirmation_uses_live_polling_after_pending_expiry() {
    let mut flight = visible_flight();
    flight.target_confirmation = TargetConfirmation::AircraftVisible;
    flight.last_seen = None;
    flight.last_visible_at = Some(dt("2026-04-18T23:58:00Z"));
    flight.last_adsb_poll_at = Some(dt("2026-04-18T23:58:00Z"));

    assert_eq!(poll_readiness(&flight, dt("2026-04-19T00:01:00Z")), PollReadiness::Due);
}

#[test]
fn aircraft_visible_without_visibility_anchor_can_still_expire_as_pending() {
    let mut flight = visible_flight();
    flight.target_confirmation = TargetConfirmation::AircraftVisible;
    flight.last_seen = None;
    flight.last_visible_at = None;
    flight.last_adsb_poll_at = Some(dt("2026-04-18T23:58:00Z"));

    assert_eq!(poll_readiness(&flight, dt("2026-04-19T00:01:00Z")), PollReadiness::Expired);
}

#[test]
fn migrate_target_confirmations_preserves_visible_last_seen_anchor() {
    let last_seen = dt("2026-04-18T12:01:00Z");
    let mut state = state_of(vec![visible_flight()]);

    assert_eq!(migrate_target_confirmations(&mut state), 0);
    assert_eq!(state.flights[0].last_seen, Some(last_seen));
    assert_eq!(state.flights[0].target_confirmation, TargetConfirmation::AircraftVisible);
}

#[test]
fn backfill_visible_anchor_prefers_last_adsb_poll_for_visible_flight() {
    let last_adsb_poll_at = dt("2026-04-18T12:32:00Z");
    let mut flight = visible_flight();
    flight.last_visible_at = None;
    assert_eq!(flight.target_confirmation, TargetConfirmation::AircraftVisible);
    let mut state = state_of(vec![flight]);

    assert_eq!(backfill_visible_anchor(&mut state), 1);
    assert_eq!(state.flights[0].last_visible_at, Some(last_adsb_poll_at));
    assert_eq!(backfill_visible_anchor(&mut state), 0);
}

#[test]
fn backfill_visible_anchor_falls_back_to_last_seen_without_poll_timestamp() {
    let last_seen = dt("2026-04-18T12:01:00Z");
    let mut flight = visible_flight();
    flight.last_visible_at = None;
    flight.last_adsb_poll_at = None;
    let mut state = state_of(vec![flight]);

    assert_eq!(backfill_visible_anchor(&mut state), 1);
    assert_eq!(state.flights[0].last_visible_at, Some(last_seen));
}

#[test]
fn backfill_visible_anchor_skips_pending_flight_without_last_seen() {
    let mut flight = visible_flight();
    flight.last_seen = None;
    flight.last_visible_at = None;
    let mut state = state_of(vec![flight]);

    assert_eq!(backfill_visible_anchor(&mut state), 0);
    assert_eq!(state.flights[0].last_visible_at, None);
}
