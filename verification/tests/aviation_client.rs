use twitch_1337::aviation::airports::{AirportPosition, Airports};
use twitch_1337::aviation::client::adsb::{
    absorb_fetches, classify_send_failure, classify_status, default_adsb_aggregators,
    outage_log_due, plan_fetch, trim_slashes, AdsbAggregator, AdsbEndpoint, AdsbFetchError,
    FetchFailure, Fetched, SendFailure,
};
use twitch_1337::aviation::client::adsbdb::{
    airline_url, has_answer, resolve_locally, resolved_callsign, route_url, Airline, AirlineTable,
    Resolution,
};
use twitch_1337::aviation::client::aviationstack::{
    after_query, aviationstack_4xx_is_actionable, aviationstack_queries, aviationstack_query,
    first_metadata, judge_status, QueryVerdict, StatusVerdict,
};
use twitch_1337::aviation::client::health::{Health, ERROR_STREAK_PARK};
use twitch_1337::aviation::client::merge::{freshness_bucket, merge_aircraft};
use twitch_1337::aviation::client::nominatim::short_display_name;
use twitch_1337::aviation::tracker::FlightIdentifier;
use twitch_1337::aviation::types::{
    parse_aviationstack_datetime, AltBaro, AviationstackDeparture, AviationstackFlight,
    AviationstackFlightIdentity, NearbyAircraft,
};
use twitch_1337::decimal::Decimal;
use twitch_1337::time::{Moment, Timestamp};

/// A number in millionths. What is no number is nothing.
fn dec(x: f64) -> Option<Decimal> {
    if x.is_finite() {
        Some(Decimal { micros: (x * 1_000_000.0).round() as i64 })
    } else {
        None
    }
}

fn ac(hex: Option<&str>, seen_pos: Option<f64>, rssi: Option<f64>) -> NearbyAircraft {
    NearbyAircraft {
        hex: hex.map(str::to_owned),
        flight: None,
        r: None,
        t: None,
        alt_baro: None,
        lat: None,
        lon: None,
        gs: None,
        baro_rate: None,
        geom_rate: None,
        squawk: None,
        nav_modes: None,
        rssi: rssi.and_then(dec),
        seen_pos: seen_pos.and_then(dec),
    }
}

fn flying(flight: &str, seen_pos: Option<f64>, rssi: Option<f64>) -> NearbyAircraft {
    let mut a = ac(Some("3c6589"), seen_pos, rssi);
    a.flight = Some(flight.to_owned());
    a
}

fn check_merge_unions_distinct_aircraft() {
    let merged = merge_aircraft(&vec![
        vec![ac(Some("aaa111"), Some(1.0), Some(-10.0))],
        vec![ac(Some("bbb222"), Some(1.0), Some(-10.0))],
    ]);
    let hexes: Vec<_> = merged.iter().filter_map(|a| a.hex.clone()).collect();
    assert_eq!(merged.len(), 2);
    assert!(hexes.contains(&"aaa111".to_owned()));
    assert!(hexes.contains(&"bbb222".to_owned()));
}

fn check_merge_keeps_fresher_copy() {
    let merged = merge_aircraft(&vec![
        vec![ac(Some("aaa111"), Some(1.0), Some(-30.0))],
        vec![ac(Some("aaa111"), Some(30.0), Some(-5.0))],
    ]);
    assert_eq!(merged.len(), 1);
    assert_eq!(merged[0].seen_pos, dec(1.0));
}

fn check_merge_breaks_freshness_tie_by_rssi() {
    let merged = merge_aircraft(&vec![
        vec![ac(Some("aaa111"), Some(1.0), Some(-30.0))],
        vec![ac(Some("aaa111"), Some(2.0), Some(-5.0))],
    ]);
    assert_eq!(merged.len(), 1);
    assert_eq!(merged[0].rssi, dec(-5.0));
}

fn check_merge_bucket_beats_rssi() {
    let merged = merge_aircraft(&vec![
        vec![ac(Some("aaa111"), Some(1.0), Some(-30.0))],
        vec![ac(Some("aaa111"), Some(20.0), Some(-1.0))],
    ]);
    assert_eq!(merged.len(), 1);
    assert_eq!(merged[0].seen_pos, dec(1.0));
}

fn check_merge_missing_seen_pos_loses() {
    let merged = merge_aircraft(&vec![
        vec![ac(Some("aaa111"), None, Some(-1.0))],
        vec![ac(Some("aaa111"), Some(10.0), Some(-30.0))],
    ]);
    assert_eq!(merged.len(), 1);
    assert_eq!(merged[0].seen_pos, dec(10.0));
}

fn check_merge_garbage_seen_pos_loses() {
    for garbage in [-1.0_f64, f64::NAN, f64::INFINITY] {
        let merged = merge_aircraft(&vec![
            vec![ac(Some("aaa111"), Some(garbage), Some(-1.0))],
            vec![ac(Some("aaa111"), Some(10.0), Some(-30.0))],
        ]);
        assert_eq!(merged.len(), 1);
        assert_eq!(merged[0].seen_pos, dec(10.0), "garbage {garbage} must lose");
    }
}

fn check_merge_tie_keeps_first_backend() {
    let mut first = ac(Some("aaa111"), Some(1.0), Some(-10.0));
    first.flight = Some("FIRST".to_owned());
    let mut second = ac(Some("aaa111"), Some(1.0), Some(-10.0));
    second.flight = Some("SECOND".to_owned());
    let merged = merge_aircraft(&vec![vec![first], vec![second]]);
    assert_eq!(merged.len(), 1);
    assert_eq!(merged[0].flight.as_deref(), Some("FIRST"));
}

fn check_merge_dedups_case_insensitively_but_keeps_original_case() {
    let merged = merge_aircraft(&vec![
        vec![ac(Some("3C6589"), Some(1.0), Some(-5.0))],
        vec![ac(Some("3c6589"), Some(30.0), Some(-50.0))],
    ]);
    assert_eq!(merged.len(), 1, "different-case hex must dedup");
    assert_eq!(merged[0].hex.as_deref(), Some("3C6589"), "stored hex unchanged");
}

fn check_merge_keeps_hexless_aircraft() {
    let mut hexless_a = ac(None, Some(1.0), Some(-10.0));
    hexless_a.flight = Some("HEXLESS_A".to_owned());
    let mut hexless_b = ac(None, Some(1.0), Some(-10.0));
    hexless_b.flight = Some("HEXLESS_B".to_owned());
    let merged = merge_aircraft(&vec![vec![
        ac(Some("aaa111"), Some(1.0), Some(-10.0)),
        hexless_a,
        hexless_b,
    ]]);
    let flights: Vec<_> = merged.iter().filter_map(|a| a.flight.as_deref()).collect();
    assert_eq!(merged.len(), 3);
    assert!(flights.contains(&"HEXLESS_A"));
    assert!(flights.contains(&"HEXLESS_B"));
}

#[test]
fn client_merge_unions_distinct_aircraft() {
    check_merge_unions_distinct_aircraft();
}

#[test]
fn adsb_merge_unions_distinct_aircraft() {
    check_merge_unions_distinct_aircraft();
}

#[test]
fn client_merge_keeps_fresher_copy() {
    check_merge_keeps_fresher_copy();
}

#[test]
fn adsb_merge_keeps_fresher_copy() {
    check_merge_keeps_fresher_copy();
}

#[test]
fn client_merge_breaks_freshness_tie_by_rssi() {
    check_merge_breaks_freshness_tie_by_rssi();
}

#[test]
fn adsb_merge_breaks_freshness_tie_by_rssi() {
    check_merge_breaks_freshness_tie_by_rssi();
}

#[test]
fn client_merge_bucket_beats_rssi() {
    check_merge_bucket_beats_rssi();
}

#[test]
fn adsb_merge_bucket_beats_rssi() {
    check_merge_bucket_beats_rssi();
}

#[test]
fn client_merge_missing_seen_pos_loses() {
    check_merge_missing_seen_pos_loses();
}

#[test]
fn adsb_merge_missing_seen_pos_loses() {
    check_merge_missing_seen_pos_loses();
}

#[test]
fn client_merge_garbage_seen_pos_loses() {
    check_merge_garbage_seen_pos_loses();
}

#[test]
fn adsb_merge_garbage_seen_pos_loses() {
    check_merge_garbage_seen_pos_loses();
}

#[test]
fn client_merge_tie_keeps_first_backend() {
    check_merge_tie_keeps_first_backend();
}

#[test]
fn adsb_merge_tie_keeps_first_backend() {
    check_merge_tie_keeps_first_backend();
}

#[test]
fn client_merge_dedups_case_insensitively_but_keeps_original_case() {
    check_merge_dedups_case_insensitively_but_keeps_original_case();
}

#[test]
fn adsb_merge_dedups_case_insensitively_but_keeps_original_case() {
    check_merge_dedups_case_insensitively_but_keeps_original_case();
}

#[test]
fn client_merge_keeps_hexless_aircraft() {
    let merged = merge_aircraft(&vec![vec![
        ac(Some("aaa111"), Some(1.0), Some(-10.0)),
        ac(None, Some(1.0), Some(-10.0)),
    ]]);
    assert_eq!(merged.len(), 2);
}

#[test]
fn adsb_merge_keeps_hexless_aircraft() {
    check_merge_keeps_hexless_aircraft();
}

#[test]
fn freshness_comes_in_steps_of_five_seconds() {
    assert_eq!(freshness_bucket(dec(0.0)), 0);
    assert_eq!(freshness_bucket(dec(4.999999)), 0);
    assert_eq!(freshness_bucket(dec(5.0)), 1);
    assert_eq!(freshness_bucket(dec(12.5)), 2);
    assert_eq!(freshness_bucket(dec(-0.5)), freshness_bucket(None));
    assert!(freshness_bucket(None) > freshness_bucket(dec(1_000_000.0)));
}

fn check_adsb_fi_point_url_uses_open_data_path() {
    let aggregator = AdsbAggregator::adsb_fi("https://opendata.adsb.fi/api/v2/".to_string());
    let url = AdsbEndpoint::Point { lat: "1.5", lon: "2.25", radius_nm: 15 }.url(&aggregator);
    assert_eq!(url, "https://opendata.adsb.fi/api/v2/lat/1.5/lon/2.25/dist/15");
}

#[test]
fn client_adsb_fi_point_url_uses_open_data_path() {
    check_adsb_fi_point_url_uses_open_data_path();
}

#[test]
fn adsb_adsb_fi_point_url_uses_open_data_path() {
    check_adsb_fi_point_url_uses_open_data_path();
}

#[test]
fn addresses_follow_the_style_of_the_aggregator() {
    let a = AdsbAggregator::readsb_v2("a", "http://a.test//".to_string());
    assert_eq!(
        AdsbEndpoint::Point { lat: "50", lon: "8", radius_nm: 15 }.url(&a),
        "http://a.test/point/50/8/15"
    );
    assert_eq!(AdsbEndpoint::Hex("3c6589").url(&a), "http://a.test/hex/3c6589");
    assert_eq!(AdsbEndpoint::Callsign("DLH1").url(&a), "http://a.test/callsign/DLH1");
    assert_eq!(trim_slashes("/a//"), "/a");
    let names: Vec<String> = default_adsb_aggregators().into_iter().map(|a| a.name).collect();
    assert_eq!(names, vec!["adsb.lol", "airplanes.live", "adsb.fi", "ADSB.One"]);
}

const COOLDOWN: u64 = 60_000_000_000;

fn at(millis: u64) -> Moment {
    Moment { nanos: millis * 1_000_000 }
}

fn check_health_all_available_on_construction() {
    let h = Health::new(2, at(0), COOLDOWN);
    assert_eq!(h.live_backend_indices(at(0)).len(), 2);
}

fn check_health_parks_and_restores() {
    let mut h = Health::new(2, at(0), 50_000_000);
    h.park_backend(0, at(0));
    assert_eq!(h.live_backend_indices(at(0)), vec![1]);
    assert_eq!(h.parked_backend_count(at(0)), 1);
    assert_eq!(h.live_backend_indices(at(200)), vec![0, 1]);
}

fn check_health_error_streak_parks_on_third() {
    let mut h = Health::new(1, at(0), COOLDOWN);
    h.record_retryable_error(0, at(0));
    h.record_retryable_error(0, at(0));
    assert_eq!(h.live_backend_indices(at(0)), vec![0], "2 errors: still live");
    h.record_retryable_error(0, at(0));
    assert!(h.live_backend_indices(at(0)).is_empty(), "3rd error parks the backend");
}

fn check_health_success_resets_error_streak() {
    let mut h = Health::new(1, at(0), COOLDOWN);
    h.record_retryable_error(0, at(0));
    h.record_retryable_error(0, at(0));
    h.record_success(0);
    h.record_retryable_error(0, at(0));
    h.record_retryable_error(0, at(0));
    assert_eq!(
        h.live_backend_indices(at(0)),
        vec![0],
        "streak reset by success → 2 fresh errors don't park"
    );
}

#[test]
fn client_health_all_available_on_construction() {
    check_health_all_available_on_construction();
}

#[test]
fn adsb_health_all_available_on_construction() {
    check_health_all_available_on_construction();
}

#[test]
fn client_health_parks_and_restores() {
    check_health_parks_and_restores();
}

#[test]
fn adsb_health_parks_and_restores() {
    check_health_parks_and_restores();
}

#[test]
fn client_health_error_streak_parks_on_third() {
    check_health_error_streak_parks_on_third();
}

#[test]
fn adsb_health_error_streak_parks_on_third() {
    check_health_error_streak_parks_on_third();
}

#[test]
fn client_health_success_resets_error_streak() {
    check_health_success_resets_error_streak();
}

#[test]
fn adsb_health_success_resets_error_streak() {
    check_health_success_resets_error_streak();
}

/// What an aggregator of these tests does with a request.
enum Script {
    Status(u16),
    Slow,
    Aircraft(Vec<NearbyAircraft>),
}

/// Aggregators that follow a script, and count the requests.
struct Net {
    aggregators: Vec<AdsbAggregator>,
    scripts: Vec<Script>,
    health: Health,
    requests: Vec<usize>,
}

impl Net {
    fn new(scripts: Vec<Script>) -> Net {
        let n = scripts.len();
        let names = ["a", "b", "c"];
        let aggregators = (0..n)
            .map(|i| AdsbAggregator::readsb_v2(names[i], format!("http://{}.test", names[i])))
            .collect();
        Net { aggregators, scripts, health: Health::new(n, at(0), COOLDOWN), requests: vec![0; n] }
    }

    fn ask(&mut self, endpoint: AdsbEndpoint<'_>) -> Result<Vec<NearbyAircraft>, FetchFailure> {
        let plans = plan_fetch(&self.aggregators, &self.health, &endpoint, at(1))?;
        let mut fetched = Vec::new();
        for plan in plans {
            let name = self.aggregators[plan.index].name.clone();
            assert_eq!(plan.url, endpoint.url(&self.aggregators[plan.index]));
            self.requests[plan.index] += 1;
            let result = match &self.scripts[plan.index] {
                Script::Aircraft(list) => Ok(list.iter().map(|a| a.duplicate()).collect()),
                Script::Slow => {
                    Err(classify_send_failure(&name, SendFailure::Timeout, "deadline"))
                }
                Script::Status(code) => {
                    Err(classify_status(&name, *code, &format!("HTTP {code}")).unwrap())
                }
            };
            fetched.push(Fetched { index: plan.index, name, result });
        }
        absorb_fetches(&mut self.health, &fetched, &endpoint, at(1))
    }

    fn by_hex(&mut self) -> Result<Option<NearbyAircraft>, FetchFailure> {
        Ok(self.ask(AdsbEndpoint::Hex("3c6589"))?.into_iter().next())
    }
}

fn check_adsb_falls_back_from_5xx_to_next_aggregator() {
    let mut net = Net::new(vec![
        Script::Status(503),
        Script::Aircraft(vec![flying("DLH1234", None, None)]),
    ]);
    let aircraft = net.by_hex().expect("lookup succeeds through fallback").expect("aircraft");
    assert_eq!(aircraft.flight.as_deref(), Some("DLH1234"));
    assert_eq!(net.requests, vec![1, 1]);
}

fn check_adsb_falls_back_from_timeout_to_next_aggregator() {
    let mut net =
        Net::new(vec![Script::Slow, Script::Aircraft(vec![flying("DLH1234", None, None)])]);
    let found = net.ask(AdsbEndpoint::Callsign("DLH1234")).expect("succeeds through fallback");
    assert_eq!(found[0].flight.as_deref(), Some("DLH1234"));
    assert_eq!(net.requests, vec![1, 1]);
}

fn check_fetch_once_classifies_429_as_rate_limited() {
    let err = classify_status("primary", 429, "429 Too Many Requests").expect("429 is an error");
    assert!(matches!(err, AdsbFetchError::RateLimited));
}

fn check_merged_query_unions_two_backends() {
    let mut net = Net::new(vec![
        Script::Aircraft(vec![ac(Some("aaa111"), Some(1.0), Some(-10.0))]),
        Script::Aircraft(vec![ac(Some("bbb222"), Some(1.0), Some(-10.0))]),
    ]);
    let endpoint = AdsbEndpoint::Point { lat: "50", lon: "8", radius_nm: 15 };
    let aircraft = net.ask(endpoint).unwrap();
    let hexes: Vec<_> = aircraft.iter().filter_map(|a| a.hex.clone()).collect();
    assert_eq!(aircraft.len(), 2);
    assert!(hexes.contains(&"aaa111".to_owned()));
    assert!(hexes.contains(&"bbb222".to_owned()));
}

fn check_merged_query_keeps_freshest_duplicate() {
    let mut net = Net::new(vec![
        Script::Aircraft(vec![flying("FRESH", Some(1.0), Some(-30.0))]),
        Script::Aircraft(vec![flying("STALE", Some(30.0), Some(-1.0))]),
    ]);
    let aircraft = net.by_hex().unwrap().unwrap();
    assert_eq!(aircraft.flight.as_deref(), Some("FRESH"));
}

fn check_parks_at_once(status: u16) {
    let mut net = Net::new(vec![
        Script::Status(status),
        Script::Aircraft(vec![flying("DLH1", None, None)]),
    ]);
    let first = net.by_hex().unwrap().unwrap();
    assert_eq!(first.flight.as_deref(), Some("DLH1"));
    let _ = net.by_hex().unwrap();
    assert_eq!(net.requests, vec![1, 2], "A parked");
}

fn check_merged_query_timeout_does_not_park() {
    let mut net = Net::new(vec![Script::Slow, Script::Aircraft(vec![flying("FAST", None, None)])]);
    for _ in 0..3 {
        let _ = net.by_hex().unwrap();
    }
    let _ = net.by_hex().unwrap();
    assert_eq!(net.requests[0], 4, "timeouts must not park the backend");
}

fn check_merged_query_all_fail_is_error() {
    let mut net = Net::new(vec![Script::Status(503), Script::Status(503)]);
    let failure = net.by_hex().unwrap_err();
    assert_eq!(
        failure.context,
        "all_backends_unavailable endpoint_kind=hex configured_backends=2 parked_backends=0 last_provider_outcome=b:retryable_error"
    );
    assert_eq!(failure.cause.as_deref(), Some("b returned HTTP 503"));
}

#[test]
fn client_adsb_falls_back_from_5xx_to_next_aggregator() {
    check_adsb_falls_back_from_5xx_to_next_aggregator();
}

#[test]
fn adsb_adsb_falls_back_from_5xx_to_next_aggregator() {
    check_adsb_falls_back_from_5xx_to_next_aggregator();
}

#[test]
fn client_adsb_falls_back_from_timeout_to_next_aggregator() {
    check_adsb_falls_back_from_timeout_to_next_aggregator();
}

#[test]
fn adsb_adsb_falls_back_from_timeout_to_next_aggregator() {
    check_adsb_falls_back_from_timeout_to_next_aggregator();
}

#[test]
fn client_fetch_once_classifies_429_as_rate_limited() {
    check_fetch_once_classifies_429_as_rate_limited();
}

#[test]
fn adsb_fetch_once_classifies_429_as_rate_limited() {
    check_fetch_once_classifies_429_as_rate_limited();
}

#[test]
fn fetch_once_classifies_403_as_provider_refused() {
    let err = classify_status("primary", 403, "403 Forbidden").expect("403 is an error");
    assert!(matches!(err, AdsbFetchError::ProviderRefused { status: 403 }));
    assert!(!format!("{err:?}").contains("secret body"));
}

#[test]
fn client_merged_query_unions_two_backends() {
    check_merged_query_unions_two_backends();
}

#[test]
fn adsb_merged_query_unions_two_backends() {
    check_merged_query_unions_two_backends();
}

#[test]
fn client_merged_query_keeps_freshest_duplicate() {
    check_merged_query_keeps_freshest_duplicate();
}

#[test]
fn adsb_merged_query_keeps_freshest_duplicate() {
    check_merged_query_keeps_freshest_duplicate();
}

#[test]
fn client_merged_query_parks_backend_on_429() {
    check_parks_at_once(429);
}

#[test]
fn adsb_merged_query_parks_backend_on_429() {
    check_parks_at_once(429);
}

#[test]
fn merged_query_parks_backend_on_403() {
    check_parks_at_once(403);
}

#[test]
fn merged_query_streak_parks_backend_on_persistent_4xx() {
    let mut net = Net::new(vec![Script::Status(404)]);
    for _ in 0..(ERROR_STREAK_PARK + 1) {
        let _ = net.by_hex();
    }
    assert_eq!(
        net.requests[0], ERROR_STREAK_PARK as usize,
        "non-403 4xx parks the backend after the streak threshold"
    );
}

#[test]
fn merged_query_streak_parks_backend_on_retryable_5xx() {
    let mut net = Net::new(vec![
        Script::Status(503),
        Script::Aircraft(vec![flying("OK", None, None)]),
    ]);
    for _ in 0..(ERROR_STREAK_PARK + 1) {
        let aircraft = net.by_hex().unwrap().unwrap();
        assert_eq!(aircraft.flight.as_deref(), Some("OK"));
    }
    assert_eq!(
        net.requests,
        vec![ERROR_STREAK_PARK as usize, ERROR_STREAK_PARK as usize + 1]
    );
}

#[test]
fn client_merged_query_timeout_does_not_park() {
    check_merged_query_timeout_does_not_park();
}

#[test]
fn adsb_merged_query_timeout_does_not_park() {
    check_merged_query_timeout_does_not_park();
}

#[test]
fn client_merged_query_all_fail_is_error() {
    check_merged_query_all_fail_is_error();
}

#[test]
fn adsb_merged_query_all_fail_is_error() {
    check_merged_query_all_fail_is_error();
}

#[test]
fn merged_query_all_backends_parked_reports_aggregate_outage() {
    let mut net = Net::new(vec![Script::Status(403), Script::Status(403)]);
    let first = net.by_hex();
    assert!(first.is_err());
    let second = net.by_hex().unwrap_err();
    let message = second.context;
    assert!(message.contains("all_backends_unavailable"), "{message}");
    assert!(message.contains("configured_backends=2"), "{message}");
    assert!(!message.contains("forbidden secret body"));
    assert_eq!(
        message,
        "all_backends_unavailable endpoint_kind=hex configured_backends=2 parked_backends=2 last_provider_outcome=all_parked"
    );
}

#[test]
fn without_aggregators_nobody_is_asked() {
    let mut net = Net::new(Vec::new());
    assert_eq!(net.by_hex().unwrap_err().context, "No ADS-B aggregators configured");
}

#[test]
fn failures_are_told_apart() {
    assert!(classify_status("a", 204, "").is_none());
    assert!(matches!(
        classify_status("a", 302, "302 Found"),
        Some(AdsbFetchError::Retryable(s)) if s == "a returned 302 Found"
    ));
    assert!(matches!(
        classify_send_failure("a", SendFailure::Connect, "x"),
        AdsbFetchError::Retryable(s) if s == "Failed to send request to a: x"
    ));
    assert!(matches!(
        classify_send_failure("a", SendFailure::Other, "x"),
        AdsbFetchError::Fatal(_)
    ));
    for (status, outcome) in [
        (429u16, "a:rate_limited:429"),
        (403, "a:forbidden_parked:403"),
        (404, "a:client_response:404"),
    ] {
        let mut net = Net::new(vec![Script::Status(status)]);
        let e = net.by_hex().unwrap_err();
        assert!(e.context.ends_with(outcome), "{}", e.context);
        assert_eq!(e.cause, Some(format!("a returned {status}")));
    }
    let mut net = Net::new(vec![Script::Slow]);
    assert!(net.by_hex().unwrap_err().context.ends_with("a:timeout"));
}

#[test]
fn outages_are_logged_once_a_minute() {
    let mut last = None;
    assert!(outage_log_due(&mut last, at(1_000)));
    assert!(!outage_log_due(&mut last, at(60_999)));
    assert!(outage_log_due(&mut last, at(61_000)));
    assert_eq!(last, Some(at(61_000)));
}

fn airlines() -> AirlineTable {
    AirlineTable {
        rows: vec![
            Airline { iata: "LH".to_string(), icao: "DLH".to_string() },
            Airline { iata: "TP".to_string(), icao: "TAP".to_string() },
        ],
    }
}

fn resolve(input: &str, looked_up: Option<&str>) -> String {
    match resolve_locally(input, &airlines()) {
        Resolution::Done(s) => s,
        Resolution::LookUp { airline } => {
            assert_eq!(airline, input[..2]);
            resolved_callsign(input, looked_up)
        }
    }
}

fn check_resolve_callsign_translates_iata() {
    assert_eq!(resolve("TP247", None), "TAP247");
    assert_eq!(resolve("LH5765", None), "DLH5765");
}

fn check_resolve_callsign_passes_through_icao() {
    assert_eq!(resolve("TAP247", None), "TAP247");
    assert_eq!(resolve("DLH5765", None), "DLH5765");
}

fn check_resolve_callsign_passes_through_hex() {
    assert_eq!(resolve("4CA87D", None), "4CA87D");
}

#[test]
fn client_resolve_callsign_translates_iata() {
    check_resolve_callsign_translates_iata();
}

#[test]
fn adsbdb_resolve_callsign_translates_iata() {
    check_resolve_callsign_translates_iata();
}

#[test]
fn client_resolve_callsign_passes_through_icao() {
    check_resolve_callsign_passes_through_icao();
}

#[test]
fn adsbdb_resolve_callsign_passes_through_icao() {
    check_resolve_callsign_passes_through_icao();
}

#[test]
fn client_resolve_callsign_passes_through_hex() {
    check_resolve_callsign_passes_through_hex();
}

#[test]
fn adsbdb_resolve_callsign_passes_through_hex() {
    check_resolve_callsign_passes_through_hex();
}

#[test]
fn unknown_airlines_are_looked_up() {
    assert_eq!(resolve("ZZ12", Some("ZED")), "ZED12");
    assert_eq!(resolve("ZZ12", None), "ZZ12");
}

#[test]
fn adsbdb_route_4xx_is_quiet_miss() {
    assert!(!has_answer(403));
    assert!(!has_answer(404));
    assert!(!has_answer(503));
    assert!(has_answer(200));
    assert_eq!(route_url("http://x.test/v0", "DLH1234"), "http://x.test/v0/callsign/DLH1234");
    assert_eq!(airline_url("http://x.test/v0", "LH"), "http://x.test/v0/airline/LH");
}

fn callsign(s: &str) -> FlightIdentifier {
    FlightIdentifier::Callsign(s.to_string())
}

fn queries(id: &str, resolved: Option<&str>) -> Vec<(&'static str, String)> {
    aviationstack_queries(&callsign(id), resolved)
        .into_iter()
        .map(|(k, v)| (k.to_text(), v))
        .collect()
}

#[test]
fn client_aviationstack_query_detects_iata_and_icao_flight_numbers() {
    let query = |id: &str| {
        aviationstack_query(&callsign(id), None).map(|(k, v)| (k.to_text(), v))
    };
    assert_eq!(query("LH1929"), Some(("flight_iata", "LH1929".to_string())));
    assert_eq!(query("DLH1929"), Some(("flight_icao", "DLH1929".to_string())));
}

#[test]
fn aviationstack_aviationstack_query_detects_iata_and_icao_flight_numbers() {
    assert_eq!(queries("LH1929", None), vec![("flight_iata", "LH1929".to_string())]);
    assert_eq!(queries("DLH1929", None), vec![("flight_icao", "DLH1929".to_string())]);
}

#[test]
fn aviationstack_query_appends_resolved_icao_fallback() {
    assert_eq!(
        queries("DE1513", Some("CFG1513")),
        vec![("flight_iata", "DE1513".to_string()), ("flight_icao", "CFG1513".to_string())]
    );
}

#[test]
fn aviationstack_4xx_is_quiet_miss_without_body() {
    assert_eq!(judge_status(404), StatusVerdict::Miss);
    assert_eq!(after_query(&Ok(None), 0, 1), QueryVerdict::NotFound);
}

#[test]
fn aviationstack_auth_and_quota_4xx_are_actionable() {
    assert!(aviationstack_4xx_is_actionable(401));
    assert!(aviationstack_4xx_is_actionable(403));
    assert!(aviationstack_4xx_is_actionable(429));
    assert!(!aviationstack_4xx_is_actionable(404));
    assert!(!aviationstack_4xx_is_actionable(400));
    assert!(!aviationstack_4xx_is_actionable(422));
}

#[test]
fn metadata_lookups_go_on_until_something_is_found() {
    assert_eq!(judge_status(200), StatusVerdict::Answer);
    assert_eq!(judge_status(401), StatusVerdict::ActionableMiss);
    assert_eq!(judge_status(500), StatusVerdict::Failure);
    assert_eq!(after_query(&Ok(None), 0, 2), QueryVerdict::TryNext);
    assert_eq!(after_query(&Err(()), 0, 2), QueryVerdict::TryNext);
    assert_eq!(after_query(&Err(()), 1, 2), QueryVerdict::Failed);
    assert!(first_metadata(&Vec::new()).is_none());
    let m = first_metadata(&vec![AviationstackFlight {
        flight_date: Some("2026-04-18".to_string()),
        flight_status: None,
        departure: Some(AviationstackDeparture {
            airport: None,
            iata: Some("FRA".to_string()),
            icao: None,
            terminal: None,
            gate: None,
            delay: Some(5),
            scheduled: Some("2026-04-18T10:00:00+00:00".to_string()),
            estimated: None,
            actual: None,
            actual_runway: Some("soon".to_string()),
        }),
        arrival: None,
        airline: None,
        flight: Some(AviationstackFlightIdentity {
            number: None,
            iata: Some("LH1".to_string()),
            icao: None,
        }),
        aircraft: None,
    }])
    .unwrap();
    assert_eq!(m.departure_iata.as_deref(), Some("FRA"));
    assert_eq!(m.flight_iata.as_deref(), Some("LH1"));
    assert_eq!(m.departure_delay_minutes, Some(5));
    assert_eq!(m.departure_scheduled, Some(Timestamp::from_secs(1_776_506_400)));
    let leap = parse_aviationstack_datetime(Some(" 2016-12-31T23:59:60+00:00 ")).unwrap();
    assert_eq!(leap, Timestamp::from_parts(1_483_228_799, 1_000_000_000));
    assert_eq!(leap.utc_clock(), "23:59");
    assert_eq!(m.departure_actual_runway, None);
    assert_eq!(m.arrival_iata, None);
    assert!(matches!(after_query(&Ok(Some(m)), 0, 2), QueryVerdict::Found));
}

#[test]
fn places_go_by_the_first_part_of_their_name() {
    assert_eq!(short_display_name(" Frankfurt am Main , Hessen, Deutschland"), "Frankfurt am Main");
    assert_eq!(short_display_name("Berlin"), "Berlin");
    assert_eq!(short_display_name(",x"), "");
}

#[test]
fn altitudes_are_feet_or_ground() {
    assert_eq!(AltBaro::from_report(Some(35000)), AltBaro::Feet(35000));
    assert_eq!(AltBaro::from_report(None), AltBaro::Ground);
}

#[test]
fn airports_are_found_by_code() {
    let table = Airports {
        rows: vec![AirportPosition {
            iata: "FRA".to_string(),
            lat: dec(50.0333).unwrap(),
            lon: dec(8.5706).unwrap(),
        }],
    };
    assert_eq!(table.iata_to_coords("FRA"), Some((dec(50.0333).unwrap(), dec(8.5706).unwrap())));
    assert_eq!(table.iata_to_coords("MUC"), None);
}
