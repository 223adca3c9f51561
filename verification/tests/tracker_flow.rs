use twitch_1337::aviation::airports::{AirportPosition, Airports};
use twitch_1337::aviation::commands::{
    flight_problem, format_flight_plan, parse_track_args, FlightPlan, FLIGHT_USAGE, TRACK_USAGE,
    UNKNOWN_AIRCRAFT,
};
use twitch_1337::aviation::tracker::advance::{
    advance_flight, apply_route, Emit, Observation, PollOutcome,
};
use twitch_1337::aviation::tracker::cache::{
    begin_lookup, cached_flight_info, finish_lookup, flight_info_cache_expiry,
    prune_flight_info_cache, query_cache_aliases, upsert_flight_info_cache, LookupStep,
};
use twitch_1337::aviation::tracker::commands::{
    handle_status, handle_untrack, info_callsign, info_response, CallsignSource,
};
use twitch_1337::aviation::tracker::debug_journal::{
    is_sensitive_key, redact_query_value, sanitize_string,
};
use twitch_1337::aviation::tracker::format::{
    delay_part, format_airport, format_alt, format_duration_hm, msg_aviationstack_info,
    msg_flights_list, msg_squawk_emergency,
};
use twitch_1337::aviation::tracker::journal_files::is_journal_name;
use twitch_1337::aviation::tracker::metadata::{
    add_alias_callsign, normalize_flight_code, normalize_icao24, push_alias, set_hex_if_consistent,
};
use twitch_1337::aviation::tracker::phase::emergency_squawk_meaning;
use twitch_1337::aviation::tracker::queue::{
    process_latency_sensitive_command, settle_polls, tracker_wait, Answered, TrackerCommand,
    TrackerWait,
};
use twitch_1337::aviation::tracker::request::{
    begin_track, PollQuery, RouteOutcome, TrackNext, TrackRequest, TrackStep,
};
use twitch_1337::aviation::tracker::round::begin_round;
use twitch_1337::aviation::tracker::state::{restore, Repairs};
use twitch_1337::aviation::tracker::{
    FlightIdentifier, FlightPhase, FlightTrackerState, HexSource, IdentifierError,
    TargetConfirmation, TrackedFlight, MAX_TRACKED_FLIGHTS,
};
use twitch_1337::aviation::types::{AltBaro, AviationstackFlightMetadata, NearbyAircraft};
use twitch_1337::decimal::Decimal;
use twitch_1337::json::Json;
use twitch_1337::time::{parse_rfc3339, Timestamp};

fn dt(value: &str) -> Timestamp {
    parse_rfc3339(value).unwrap()
}

fn now() -> Timestamp {
    dt("2026-04-18T12:00:00Z")
}

fn dec(x: f64) -> Option<Decimal> {
    Some(Decimal { micros: (x * 1_000_000.0).round() as i64 })
}

fn empty() -> FlightTrackerState {
    FlightTrackerState { flights: Vec::new(), flight_info_cache: Vec::new() }
}

fn airports() -> Airports {
    Airports {
        rows: vec![AirportPosition {
            iata: "MUC".to_string(),
            lat: dec(48.3538).unwrap(),
            lon: dec(11.7861).unwrap(),
        }],
    }
}

fn callsign(s: &str) -> FlightIdentifier {
    FlightIdentifier::Callsign(s.to_string())
}

fn request(id: FlightIdentifier, user: &str, provider_enabled: bool) -> TrackRequest {
    TrackRequest { identifier: id, requested_by: user.to_string(), provider_enabled }
}

fn aircraft(hex: &str, flight: &str) -> NearbyAircraft {
    NearbyAircraft {
        hex: Some(hex.to_string()),
        flight: Some(format!("{flight} ")),
        r: None,
        t: Some("A320".to_string()),
        alt_baro: Some(AltBaro::Feet(34_000)),
        lat: dec(50.0),
        lon: dec(8.0),
        gs: dec(440.0),
        baro_rate: Some(0),
        geom_rate: None,
        squawk: Some("1000".to_string()),
        nav_modes: None,
        rssi: None,
        seen_pos: None,
    }
}

fn names(step: &TrackStep) -> Vec<&str> {
    step.journal.iter().map(|e| e.event.as_str()).collect()
}

fn member<'a>(step: &'a TrackStep, entry: usize, name: &str) -> &'a Json {
    let mut found = step.journal[entry].payload.iter().filter(|(key, _)| key == name);
    &found.next().unwrap().1
}

fn reply(step: TrackStep) -> (String, bool) {
    match step.next {
        TrackNext::Reply { text, save } => (text, save),
        other => panic!("{other:?}"),
    }
}

/// Tracks a flight by callsign, without the provider and with a route.
fn track(state: &mut FlightTrackerState, id: &str, hex: &str, user: &str) -> String {
    let step = begin_track(state, request(callsign(id), user, false), &airports(), now());
    let TrackNext::Resolve(resolving) = step.next else { panic!("{:?}", step.next) };
    let step = resolving.resolved(state, id.to_string(), &airports(), now());
    let TrackNext::Poll(polling) = step.next else { panic!("{:?}", step.next) };
    assert!(matches!(&polling.query, PollQuery::Callsigns(v) if *v == vec![id.to_string()]));
    let outcome = PollOutcome::Hit(aircraft(hex, id));
    let step = polling.polled(state, outcome, &airports());
    let TrackNext::FetchRoute(routing) = step.next else { panic!("{:?}", step.next) };
    assert_eq!(routing.callsign, id);
    let route =
        RouteOutcome::Found { origin: "FRA".to_string(), destination: "MUC".to_string() };
    let step = routing.answered(state, &route, &airports());
    assert_eq!(names(&step), vec!["flight_route_lookup", "track_started"]);
    let (text, save) = reply(step);
    assert!(save);
    text
}

#[test]
fn a_request_runs_through_its_stages() {
    let mut state = empty();
    let text = track(&mut state, "DLH1234", "3c6589", "alice");
    assert_eq!(
        text,
        "Tracking gestartet: DLH1234 (A320) FRA\u{2192}MUC | Status: aktiv | https://globe.adsbexchange.com/?icao=3c6589"
    );
    let f = &state.flights[0];
    assert_eq!(f.hex.as_deref(), Some("3C6589"));
    assert_eq!(f.hex_source, Some(HexSource::Adsb));
    assert_eq!(f.target_confirmation, TargetConfirmation::ConfirmedByCallsign);
    assert_eq!(f.last_seen, Some(now()));
    assert_eq!(f.dest_lat, dec(48.3538));
    assert_eq!(f.route, Some(("FRA".to_string(), "MUC".to_string())));
}

#[test]
fn a_flight_is_tracked_once() {
    let mut state = empty();
    track(&mut state, "DLH1234", "3c6589", "alice");
    let step = begin_track(
        &mut state,
        request(callsign("DLH1234"), "bob", false),
        &airports(),
        now(),
    );
    let (text, save) = reply(step);
    assert_eq!(text, "DLH1234 wird bereits getrackt | Status: aktiv FDM");
    assert!(!save);
    // Under the flight number of the same flight.
    let step =
        begin_track(&mut state, request(callsign("LH1234"), "bob", false), &airports(), now());
    let TrackNext::Resolve(resolving) = step.next else { panic!() };
    let step = resolving.resolved(&mut state, "DLH1234".to_string(), &airports(), now());
    assert_eq!(reply(step).0, "LH1234 wird bereits getrackt | Status: aktiv FDM");
    // Under its address.
    let hex = FlightIdentifier::Hex("3C6589".to_string());
    let step = begin_track(&mut state, request(hex, "bob", false), &airports(), now());
    assert_eq!(reply(step).0, "3C6589 wird bereits getrackt | Status: aktiv FDM");
    assert_eq!(state.flights.len(), 1);
}

#[test]
fn requests_are_limited() {
    let mut state = empty();
    for (i, id) in ["AAA1", "AAA2", "AAA3"].iter().enumerate() {
        track(&mut state, id, &format!("3c658{i}"), "alice");
    }
    let step =
        begin_track(&mut state, request(callsign("AAA4"), "alice", false), &airports(), now());
    assert_eq!(reply(step).0, "Track-Limit erreicht: du trackst bereits 3 Flüge FDM");
    for i in 3..MAX_TRACKED_FLIGHTS {
        track(&mut state, &format!("BBB{i}"), &format!("4c65{i:02}"), &format!("user{i}"));
    }
    let step =
        begin_track(&mut state, request(callsign("CCC1"), "carol", false), &airports(), now());
    assert_eq!(reply(step).0, "Track-Limit erreicht: maximal 12 aktive Flüge gleichzeitig FDM");
    assert_eq!(state.flights.len(), 12);
}

fn poll_of(id: FlightIdentifier, outcome: PollOutcome) -> (String, bool, usize) {
    let mut state = empty();
    let hex = id.is_hex();
    let name = id.as_str().to_string();
    let mut step = begin_track(&mut state, request(id, "alice", false), &airports(), now());
    if !hex {
        let TrackNext::Resolve(resolving) = step.next else { panic!() };
        step = resolving.resolved(&mut state, name, &airports(), now());
    }
    let TrackNext::Poll(polling) = step.next else { panic!() };
    let step = polling.polled(&mut state, outcome, &airports());
    let (text, save) = reply(step);
    (text, save, state.flights.len())
}

#[test]
fn requests_without_a_signal_are_refused() {
    let refused = "DLH1 nicht gefunden | Provider: ADS-B | Grund: kein passendes Signal FDM";
    assert_eq!(poll_of(callsign("DLH1"), PollOutcome::Miss), (refused.to_string(), false, 0));
    let stranger = PollOutcome::Hit(aircraft("3c6589", "DLH2"));
    assert_eq!(poll_of(callsign("DLH1"), stranger), (refused.to_string(), false, 0));
    assert_eq!(
        poll_of(callsign("DLH1"), PollOutcome::Error).0,
        "Provider-Problem: ADS-B down | Grund: Anfrage fehlgeschlagen FDM"
    );
    assert_eq!(
        poll_of(callsign("DLH1"), PollOutcome::Timeout).0,
        "Provider-Problem: Timeout | Provider: ADS-B | Grund: Anfrage dauerte zu lange FDM"
    );
    let hex = FlightIdentifier::Hex("4CA87D".to_string());
    assert_eq!(
        poll_of(hex, PollOutcome::Miss).0,
        "4CA87D nicht gefunden | Provider: ADS-B | Grund: kein passendes Signal FDM"
    );
}

#[test]
fn a_callsign_that_reads_like_an_address_is_tried_as_one() {
    let mut state = empty();
    let step =
        begin_track(&mut state, request(callsign("DE1513"), "alice", false), &airports(), now());
    let TrackNext::Resolve(resolving) = step.next else { panic!() };
    let step = resolving.resolved(&mut state, "CFG1513".to_string(), &airports(), now());
    let TrackNext::Poll(polling) = step.next else { panic!() };
    let step = polling.polled(&mut state, PollOutcome::Miss, &airports());
    let TrackNext::Poll(polling) = step.next else { panic!("{:?}", step.next) };
    assert!(matches!(&polling.query, PollQuery::Hex(h) if h == "DE1513"));
    let step = polling.polled(&mut state, PollOutcome::Miss, &airports());
    assert!(reply(step).0.contains("nicht gefunden"));
}

fn metadata() -> AviationstackFlightMetadata {
    let mut m = AviationstackFlightMetadata::blank();
    m.flight_iata = Some("LH1234".to_string());
    m.flight_icao = Some("DLH1234".to_string());
    m.departure_iata = Some("FRA".to_string());
    m.arrival_iata = Some("MUC".to_string());
    m.departure_scheduled = Some(dt("2026-04-18T18:00:00Z"));
    m
}

#[test]
fn scheduled_flights_wait_for_their_departure() {
    let mut state = empty();
    let step =
        begin_track(&mut state, request(callsign("LH1234"), "alice", true), &airports(), now());
    let TrackNext::Resolve(resolving) = step.next else { panic!() };
    let step = resolving.resolved(&mut state, "DLH1234".to_string(), &airports(), now());
    let TrackNext::AskProvider(asking) = step.next else { panic!("{:?}", step.next) };
    let step = asking.answered(&mut state, Ok(Some(metadata())), &airports());
    // Six hours before the departure nobody looks for the aircraft.
    assert_eq!(names(&step), vec!["aviationstack_metadata", "track_started"]);
    assert!(matches!(member(&step, 0, "cache_hit"), Json::Bool(false)));
    assert!(matches!(member(&step, 1, "original_identifier"), Json::Text(s) if s == "LH1234"));
    let (text, save) = reply(step);
    assert!(save);
    assert!(text.contains("DLH1234"), "{text}");
    assert!(text.contains("FRA"), "{text}");
    assert_eq!(state.flights[0].target_confirmation, TargetConfirmation::Pending);
    assert_eq!(state.flights[0].scheduled_departure_at, Some(dt("2026-04-18T18:00:00Z")));
    assert_eq!(state.flight_info_cache.len(), 1);
    assert_eq!(
        tracker_wait(&state, now()),
        TrackerWait::Until(dt("2026-04-18T15:00:00Z"))
    );
    // The same flight again, from the cache.
    let step =
        begin_track(&mut state, request(callsign("DLH1234"), "bob", true), &airports(), now());
    assert!(reply(step).0.contains("bereits getrackt"));
    // Once it is gone, the cache answers about it.
    state.flights.clear();
    let step =
        begin_track(&mut state, request(callsign("LH1234"), "bob", true), &airports(), now());
    let TrackNext::Resolve(resolving) = step.next else { panic!() };
    let step = resolving.resolved(&mut state, "DLH1234".to_string(), &airports(), now());
    assert_eq!(names(&step), vec!["aviationstack_metadata", "track_started"]);
    assert!(matches!(member(&step, 0, "cache_hit"), Json::Bool(true)));
    assert_eq!(state.flights.len(), 1);
}

#[test]
fn flights_are_kept_pending_where_the_provider_is_there() {
    let mut state = empty();
    let step =
        begin_track(&mut state, request(callsign("DLH1"), "alice", true), &airports(), now());
    let TrackNext::Resolve(resolving) = step.next else { panic!() };
    let step = resolving.resolved(&mut state, "DLH1".to_string(), &airports(), now());
    let TrackNext::AskProvider(asking) = step.next else { panic!() };
    let step = asking.answered(&mut state, Err(()), &airports());
    let TrackNext::Poll(polling) = step.next else { panic!("{:?}", step.next) };
    let step = polling.polled(&mut state, PollOutcome::Timeout, &airports());
    let TrackNext::FetchRoute(routing) = step.next else { panic!("{:?}", step.next) };
    assert!(!routing.quiet);
    let step = routing.answered(&mut state, &RouteOutcome::TimedOut, &airports());
    let (_, save) = reply(step);
    assert!(save);
    assert_eq!(state.flights.len(), 1);
    assert!(state.flight_info_cache.is_empty());
    assert_eq!(state.flights[0].last_adsb_poll_at, Some(now()));
    assert_eq!(state.flights[0].last_seen, None);
}

#[test]
fn an_address_leads_to_a_callsign_that_is_looked_up() {
    let mut state = empty();
    let hex = FlightIdentifier::Hex("3C6589".to_string());
    let step = begin_track(&mut state, request(hex, "alice", true), &airports(), now());
    let TrackNext::Poll(polling) = step.next else { panic!("{:?}", step.next) };
    assert!(matches!(&polling.query, PollQuery::Hex(h) if h == "3C6589"));
    let outcome = PollOutcome::Hit(aircraft("3C6589", "DLH1234"));
    let step = polling.polled(&mut state, outcome, &airports());
    let TrackNext::AskAgain(asking) = step.next else { panic!("{:?}", step.next) };
    assert_eq!(asking.aliases, vec!["DLH1234".to_string()]);
    let step = asking.answered(&mut state, Ok(Some(metadata())), &airports());
    let (text, save) = reply(step);
    assert!(save, "{text}");
    assert_eq!(state.flights[0].callsign.as_deref(), Some("DLH1234"));
    assert_eq!(state.flights[0].target_confirmation, TargetConfirmation::InferredByAssignedHex);
}

fn observation(outcome: PollOutcome) -> Observation {
    Observation { used_hex: true, aliases: Vec::new(), outcome, bearings: None }
}

#[test]
fn lost_flights_leave_at_the_end_of_a_round() {
    let mut state = empty();
    track(&mut state, "DLH1", "3c6581", "alice");
    track(&mut state, "DLH2", "3c6582", "bob");
    let later = dt("2026-04-18T12:31:00Z");
    let start = begin_round(&state, later);
    assert_eq!(start.plans.len(), 2);
    assert!(matches!(&start.plans[0].query, PollQuery::Hex(h) if h == "3C6581"));
    let mut round = start.round;
    let lost = round
        .observe(&mut state, &callsign("DLH1"), &observation(PollOutcome::Miss))
        .expect("the flight is there");
    round.conclude(&state, &callsign("DLH1"), &lost);
    let seen = PollOutcome::Hit(aircraft("3c6582", "DLH2"));
    let update = round.observe(&mut state, &callsign("DLH2"), &observation(seen)).unwrap();
    round.conclude(&state, &callsign("DLH2"), &update);
    assert!(round.observe(&mut state, &callsign("DLH3"), &observation(PollOutcome::Miss)).is_none());
    round.finish(&mut state);
    assert!(round.changed);
    assert_eq!(round.removals.len(), 1);
    assert_eq!(
        round.messages[0],
        "Tracking lost: DLH1 (A320) FRA\u{2192}MUC | Status: automatisch entfernt | Grund: kein ADS-B Signal mehr"
    );
    assert_eq!(state.flights.len(), 1);
    assert_eq!(state.flights[0].label(), "DLH2");
}

fn pending(id: &str) -> TrackedFlight {
    let mut state = empty();
    track(&mut state, id, "3c6589", "alice");
    let mut f = state.flights.remove(0);
    f.target_confirmation = TargetConfirmation::Pending;
    f.last_seen = None;
    f.last_visible_at = None;
    f.last_adsb_poll_at = None;
    f.hex = None;
    f.hex_source = None;
    f
}

#[test]
fn flights_that_never_appear_expire() {
    let mut state = empty();
    state.flights.push(pending("DLH1"));
    let start = begin_round(&state, dt("2026-04-19T12:00:00Z"));
    assert!(start.plans.is_empty());
    assert_eq!(start.round.removals, vec![callsign("DLH1")]);
    assert_eq!(start.round.messages.len(), 1);
    assert!(start.round.messages[0].contains("automatisch entfernt"));
    let mut round = start.round;
    round.finish(&mut state);
    assert!(state.flights.is_empty());
    assert!(round.changed);
}

#[test]
fn rounds_ask_only_for_flights_that_are_due() {
    let mut state = empty();
    track(&mut state, "DLH1", "3c6581", "alice");
    let start = begin_round(&state, dt("2026-04-18T12:00:01Z"));
    assert!(start.plans.is_empty());
    assert!(start.round.messages.is_empty());
    assert!(!start.round.changed);
    assert_eq!(
        tracker_wait(&state, now()),
        TrackerWait::Until(dt("2026-04-18T12:00:30Z"))
    );
    assert_eq!(tracker_wait(&empty(), now()), TrackerWait::Command);
}

#[test]
fn routes_found_during_a_round_are_kept() {
    let mut state = empty();
    state.flights.push(pending("DLH1"));
    state.flights[0].route = None;
    let start = begin_round(&state, dt("2026-04-18T12:02:00Z"));
    assert!(matches!(
        &start.plans[0].query,
        PollQuery::Callsigns(v) if *v == vec!["DLH1".to_string()]
    ));
    let found = RouteOutcome::Found { origin: "ham".to_string(), destination: "muc".to_string() };
    let entry = start
        .round
        .take_route(&mut state, &callsign("DLH1"), "DLH1", &found, &airports())
        .unwrap();
    assert_eq!(entry.event, "flight_route_lookup");
    assert_eq!(state.flights[0].dest_lon, dec(11.7861));
    assert_eq!(state.flights[0].route, Some(("HAM".to_string(), "MUC".to_string())));
}

#[test]
fn the_dashboard_is_answered_at_once() {
    let mut state = empty();
    track(&mut state, "DLH1", "3c6581", "alice");
    let snapshot: TrackerCommand<u8, u8, u8> = TrackerCommand::Snapshot { reply: 7 };
    match process_latency_sensitive_command(snapshot, &mut state, now()) {
        Answered::Views { views, reply } => {
            assert_eq!(reply, 7);
            assert_eq!(views[0].owner_login, "alice");
            assert_eq!(views[0].last_seen_secs_ago, Some(0));
        }
        other => panic!("{other:?}"),
    }
    let status: TrackerCommand<u8, u8, u8> =
        TrackerCommand::Status { identifier: None, reply_to: 1 };
    assert!(matches!(
        process_latency_sensitive_command(status, &mut state, now()),
        Answered::Deferred(TrackerCommand::Status { identifier: None, reply_to: 1 })
    ));
    let gone: TrackerCommand<u8, u8, u8> =
        TrackerCommand::DeleteFromWeb { identifier: "DLH2".to_string(), reply: 2 };
    assert!(matches!(
        process_latency_sensitive_command(gone, &mut state, now()),
        Answered::Removal { removed: None, reply: 2 }
    ));
    let delete: TrackerCommand<u8, u8, u8> =
        TrackerCommand::DeleteFromWeb { identifier: "dlh1".to_string(), reply: 3 };
    match process_latency_sensitive_command(delete, &mut state, now()) {
        Answered::Removal { removed: Some(removed), reply: 3 } => {
            assert_eq!(removed.label, "DLH1");
            assert_eq!(removed.journal.event, "tracking_removal");
            let routes = removed.journal.payload.iter().filter(|(key, _)| key == "route").count();
            assert_eq!(routes, 1);
        }
        other => panic!("{other:?}"),
    }
    assert!(state.flights.is_empty());
}

#[test]
fn callsigns_are_tried_in_turn() {
    let hit = || PollOutcome::Hit(aircraft("3c6589", "DLH1"));
    let found = settle_polls(vec![PollOutcome::Error, hit()]);
    assert!(found.found());
    assert!(matches!(settle_polls(vec![PollOutcome::Miss, PollOutcome::Miss]), PollOutcome::Miss));
    assert!(!PollOutcome::Timeout.found());
}

#[test]
fn flights_are_removed_by_their_owner_or_moderators() {
    let mut state = empty();
    track(&mut state, "DLH1", "3c6581", "alice");
    let r = handle_untrack(&mut state, "DLH1", "bob", false, now());
    assert_eq!(
        r.reply,
        "Keine Berechtigung: nur Tracker oder Mods können diesen Flug entfernen FDM"
    );
    assert_eq!(state.flights.len(), 1);
    let r = handle_untrack(&mut state, "DLH1", "bob", true, now());
    assert_eq!(r.reply, "Untrack entfernt: DLH1 | Status: nicht mehr getrackt Okayge");
    assert!(r.journal.is_some());
    let r = handle_untrack(&mut state, "DLH1", "alice", false, now());
    assert!(r.journal.is_none());
    assert!(r.reply.contains("DLH1"), "{}", r.reply);
    assert_eq!(handle_status(&state, None, now()), "Keine Flüge getrackt");
    track(&mut state, "DLH2", "3c6582", "alice");
    assert!(handle_status(&state, Some("DLH2"), now()).starts_with("DLH2"));
    assert_eq!(handle_status(&state, Some("DLH9"), now()), r.reply.replace("DLH1", "DLH9"));
    assert_eq!(msg_flights_list(&state.flights), handle_status(&state, None, now()));
}

#[test]
fn information_comes_from_the_provider() {
    let mut state = empty();
    track(&mut state, "DLH1", "3c6581", "alice");
    assert!(matches!(
        info_callsign(&state, &callsign("DLH1")),
        CallsignSource::Known(Some(s)) if s == "DLH1"
    ));
    assert!(matches!(
        info_callsign(&state, &callsign("LH2")),
        CallsignSource::Resolve(s) if s == "LH2"
    ));
    assert!(matches!(
        info_callsign(&state, &FlightIdentifier::Hex("4CA87D".to_string())),
        CallsignSource::Known(None)
    ));
    let step = begin_lookup(&mut state, &callsign("LH1234"), Some("DLH1234"), true, now());
    let LookupStep::AskProvider { aliases, cache_changed } = step else { panic!() };
    let lookup = finish_lookup(&mut state, &aliases, cache_changed, Ok(Some(metadata())), now());
    let text = info_response(&callsign("LH1234"), &lookup, true);
    assert_eq!(text, msg_aviationstack_info(&metadata()));
    assert_eq!(text, "LH1234 | FRA -> MUC | Dep: 18:00");
    let off = begin_lookup(&mut state, &callsign("XX9"), None, false, now());
    let LookupStep::Done(nothing) = off else { panic!() };
    assert!(!nothing.checked);
    assert_ne!(info_response(&callsign("XX9"), &nothing, false), text);
}

#[test]
fn lookup_results_are_remembered_until_they_expire() {
    let mut state = empty();
    let aliases = query_cache_aliases(&callsign("LH1234"), Some("DLH1234"));
    assert_eq!(aliases, vec!["LH1234".to_string(), "DLH1234".to_string()]);
    upsert_flight_info_cache(&mut state, &aliases, Some(metadata()), now());
    let found = cached_flight_info(&state, &vec!["DLH1234".to_string()], now());
    assert_eq!(found.unwrap().unwrap().departure_iata.as_deref(), Some("FRA"));
    let expiry = flight_info_cache_expiry(Some(&metadata()), now());
    assert_eq!(state.flight_info_cache[0].expires_at, expiry);
    assert!(!prune_flight_info_cache(&mut state, now()));
    assert!(cached_flight_info(&state, &aliases, expiry).is_none());
    assert!(prune_flight_info_cache(&mut state, expiry));
    assert!(state.flight_info_cache.is_empty());
    // That there is nothing is remembered, too.
    upsert_flight_info_cache(&mut state, &aliases, None, now());
    assert!(matches!(cached_flight_info(&state, &aliases, now()), Some(None)));
    assert!(cached_flight_info(&state, &vec!["XX1".to_string()], now()).is_none());
}

#[test]
fn every_lookup_result_is_read_back() {
    let mut state = empty();
    let aliases = query_cache_aliases(&callsign("  straße1 "), None);
    assert_eq!(aliases, vec!["STRASSE1".to_string()]);
    upsert_flight_info_cache(&mut state, &aliases, None, now());
    assert!(matches!(cached_flight_info(&state, &aliases, now()), Some(None)));
    upsert_flight_info_cache(&mut state, &aliases, Some(metadata()), now());
    assert_eq!(state.flight_info_cache.len(), 1);
    assert!(matches!(cached_flight_info(&state, &aliases, now()), Some(Some(_))));
}

#[test]
fn flight_codes_are_normal_once() {
    let mut c = '\0';
    loop {
        let text = format!("{c}");
        if let Some(code) = normalize_flight_code(&text) {
            assert_eq!(normalize_flight_code(&code).as_deref(), Some(code.as_str()));
            assert!(!code.contains(char::is_whitespace));
            assert!(!code.contains(|x: char| x.is_ascii_lowercase()));
        } else {
            assert!(c.is_whitespace());
        }
        if c == char::MAX {
            break;
        }
        c = match c as u32 {
            0xd7ff => '\u{e000}',
            n => char::from_u32(n + 1).unwrap(),
        };
    }
}

#[test]
fn identifiers_are_read_back() {
    for text in [" de1513 ", "4ca87d", "ryr1234a", "ß1", "ﬁ9", "A"] {
        let id = FlightIdentifier::parse(text).unwrap();
        assert_eq!(FlightIdentifier::parse(id.as_str()).unwrap(), id);
    }
    assert_eq!(FlightIdentifier::parse("ß1").unwrap().as_str(), "SS1");
    assert_eq!(FlightIdentifier::parse("ä1").unwrap_err(), IdentifierError::Invalid);
}

#[test]
fn repairs_are_done_once() {
    let mut f = pending("DLH1");
    f.hex = Some("3C6589".to_string());
    let mut g = pending("DLH2");
    g.last_seen = Some(now());
    let mut state = FlightTrackerState { flights: vec![f, g], flight_info_cache: Vec::new() };
    assert_eq!(
        restore(&mut state),
        Repairs {
            cleared_pending_hexes: 1,
            migrated_target_confirmations: 1,
            backfilled_visible_anchors: 1,
        }
    );
    assert_eq!(state.flights[1].target_confirmation, TargetConfirmation::ConfirmedByCallsign);
    assert_eq!(
        restore(&mut state),
        Repairs {
            cleared_pending_hexes: 0,
            migrated_target_confirmations: 0,
            backfilled_visible_anchors: 0,
        }
    );
}

#[test]
fn confirmations_decay_after_five_minutes() {
    let mut f = pending("DLH1");
    f.hex = Some("3C6589".to_string());
    f.target_confirmation = TargetConfirmation::ConfirmedByCallsign;
    f.last_seen = Some(now());
    let other = || observation(PollOutcome::Hit(aircraft("3c6589", "DLH9")));
    advance_flight(&mut f, &other(), dt("2026-04-18T12:04:59Z"));
    assert_eq!(f.target_confirmation, TargetConfirmation::ConfirmedByCallsign);
    assert_eq!(f.last_seen, Some(now()));
    advance_flight(&mut f, &other(), dt("2026-04-18T12:05:01Z"));
    assert_eq!(f.target_confirmation, TargetConfirmation::AircraftVisible);
    assert_eq!(f.last_visible_at, Some(dt("2026-04-18T12:05:01Z")));
    assert_eq!(f.callsign.as_deref(), Some("DLH1"));
    assert_eq!(f.phase, FlightPhase::Unknown);
}

#[test]
fn addresses_are_not_replaced() {
    let mut f = pending("DLH1");
    assert!(!set_hex_if_consistent(&mut f, "nothex", HexSource::Adsb, false));
    assert!(set_hex_if_consistent(&mut f, "3c6589", HexSource::AviationStack, false));
    assert_eq!(f.hex.as_deref(), Some("3C6589"));
    assert!(!set_hex_if_consistent(&mut f, "4CA87D", HexSource::Adsb, true));
    assert_eq!(f.hex.as_deref(), Some("3C6589"));
    assert!(set_hex_if_consistent(&mut f, "3C6589", HexSource::Adsb, true));
    assert_eq!(f.hex_source, Some(HexSource::Adsb));
    assert_eq!(normalize_icao24(" 3c6589 ").as_deref(), Some("3C6589"));
    assert_eq!(normalize_icao24("3c658"), None);
    assert_eq!(normalize_flight_code(" lh1 ").as_deref(), Some("LH1"));
    assert_eq!(normalize_flight_code("  "), None);
    let mut aliases = vec!["LH1".to_string()];
    push_alias(&mut aliases, "lh1");
    push_alias(&mut aliases, "dlh1");
    assert_eq!(aliases, vec!["LH1".to_string(), "DLH1".to_string()]);
    let known = f.alias_callsigns.len();
    add_alias_callsign(&mut f, "cfg1513");
    add_alias_callsign(&mut f, "CFG1513");
    assert_eq!(f.alias_callsigns.len(), known + 1);
    apply_route(&mut f, "ham", "muc", dec(48.0).zip(dec(11.0)));
    assert_eq!(f.route, Some(("HAM".to_string(), "MUC".to_string())));
    assert_eq!(f.dest_lat, dec(48.0));
}

#[test]
fn credentials_are_masked() {
    assert!(is_sensitive_key("Access_Key"));
    assert!(!is_sensitive_key("key"));
    assert_eq!(
        redact_query_value("https://x/?a=1&access_key=abc&b=2", "access_key"),
        "https://x/?a=1&access_key=<redacted>&b=2"
    );
    assert_eq!(sanitize_string("access_key=abc"), "access_key=<redacted>");
    assert!(is_journal_name("2026-04-18.jsonl"));
    assert!(!is_journal_name("notes.txt"));
}

#[test]
fn texts_of_the_tracker() {
    assert_eq!(format_duration_hm(59), "0m");
    assert_eq!(format_duration_hm(3599), "59m");
    assert_eq!(format_duration_hm(5400), "1h30m");
    assert_eq!(format_duration_hm(36_060), "10h01m");
    assert_eq!(format_alt(Some(34_000)), "FL340");
    assert_eq!(format_alt(Some(999)), "999ft");
    assert_eq!(format_alt(None), "?");
    let mut m = metadata();
    m.airline_name = Some("Lufthansa ".to_string());
    m.departure_actual = Some(dt("2026-04-18T18:07:00Z"));
    m.departure_delay_minutes = Some(7);
    m.arrival_estimated = Some(dt("2026-04-18T19:00:00Z"));
    m.arrival_baggage = Some("12".to_string());
    m.flight_status = Some("active".to_string());
    m.aircraft_icao = Some("A320".to_string());
    m.aircraft_registration = Some("D-AIZZ".to_string());
    m.aircraft_icao24 = Some("3c6589".to_string());
    assert_eq!(
        msg_aviationstack_info(&m),
        "LH1234 Lufthansa | FRA -> MUC | Dep: 18:07 | Arr: 19:00 | Baggage: 12 | Dep delay: 7m | Status: active | Aircraft: A320 D-AIZZ | ICAO24: 3C6589"
    );
    // A leap second shows the minute that it ends.
    m.departure_actual = Some(dt("2026-04-18T18:59:60Z"));
    assert!(msg_aviationstack_info(&m).contains("| Dep: 18:59 |"));
    assert_eq!(delay_part("Dep", Some(5)).as_deref(), Some("Dep delay: 5m"));
    assert_eq!(delay_part("Dep", Some(0)), None);
    assert_eq!(
        format_airport(Some("FRA"), None, Some("Frankfurt"), Some("1"), Some("B2")),
        "FRA T1 Gate B2"
    );
    let f = pending("DLH1");
    let meaning = emergency_squawk_meaning("7500").unwrap();
    assert!(msg_squawk_emergency(&f, "7500", meaning).contains("7500"));
    assert_eq!(emergency_squawk_meaning("1000"), None);
    assert_eq!(Emit::Cruise, Emit::Cruise);
}

#[test]
fn arguments_of_the_flight_commands() {
    let args = |s: &str| s.split(' ').map(str::to_string).collect::<Vec<_>>();
    assert_eq!(parse_track_args(&args("lh1")), Ok(callsign("LH1")));
    assert_eq!(parse_track_args(&Vec::new()), Err(TRACK_USAGE.to_string()));
    assert_eq!(parse_track_args(&args("lh 1")), Err("Ungültiges callsign/hex FDM".to_string()));
    assert_eq!(IdentifierError::Empty.message(), "Identifier darf nicht leer sein");
    assert_eq!(flight_problem(true, false, true, true), Some(FLIGHT_USAGE));
    assert_eq!(flight_problem(true, true, false, true), Some(UNKNOWN_AIRCRAFT));
    assert_eq!(flight_problem(true, true, true, false), Some(FLIGHT_USAGE));
    assert_eq!(flight_problem(true, true, true, true), None);
    let plan = FlightPlan {
        departure_icao: "EDDF".to_string(),
        arrival_icao: "EDDM".to_string(),
        distance_nm: dec(162.5).unwrap(),
        block_time: "1h 0m".to_string(),
        cruise_altitude_ft: 35_000,
        simbrief_url: "https://s".to_string(),
    };
    assert_eq!(
        format_flight_plan(&plan),
        "EDDF \u{2192} EDDM | 162 nm | 1h 0m | FL350 | https://s"
    );
}
