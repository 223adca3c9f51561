//! Requests to the aggregators of aircraft positions, and what comes of them.

use vstd::prelude::*;
use vstd::string::StringExecFns;

use super::health;
use super::health::{BackendHealth, Health};
use super::merge;
use crate::aviation::types::NearbyAircraft;
use crate::text::{number, slice};
use crate::time::Moment;

verus! {

pub const ADSBLOL_BASE_URL: &'static str = "https://api.adsb.lol/v2";

pub const AIRPLANES_LIVE_BASE_URL: &'static str = "https://api.airplanes.live/v2";

pub const ADSBFI_BASE_URL: &'static str = "https://opendata.adsb.fi/api/v2";

pub const ADSBONE_BASE_URL: &'static str = "https://api.adsb.one/v2";

/// Nanoseconds for which an aggregator is left alone.
pub const ADSB_COOLDOWN: u64 = 60_000_000_000;

/// Nanoseconds between two log entries about an outage of all aggregators.
pub const ADSB_AGGREGATE_OUTAGE_LOG_COOLDOWN: u64 = 60_000_000_000;

/// How an aggregator lays out its paths.
#[derive(Clone, Copy, Debug, PartialEq, Eq, Structural)]
pub enum AdsbPathStyle {
    ReadsbV2,
    AdsbFiOpenData,
}

/// An aggregator of aircraft positions.
#[derive(Debug)]
pub struct AdsbAggregator {
    pub name: String,
    pub base_url: String,
    pub path_style: AdsbPathStyle,
}

impl AdsbAggregator {
    pub fn readsb_v2(name: &str, base_url: String) -> (r: AdsbAggregator)
        ensures
            r.name@ == name@,
            r.base_url@ == base_url@,
            r.path_style == AdsbPathStyle::ReadsbV2,
    {
        AdsbAggregator { name: name.to_owned(), base_url, path_style: AdsbPathStyle::ReadsbV2 }
    }

    pub fn adsb_fi(base_url: String) -> (r: AdsbAggregator)
        ensures
            r.name@ == "adsb.fi"@,
            r.base_url@ == base_url@,
            r.path_style == AdsbPathStyle::AdsbFiOpenData,
    {
        AdsbAggregator {
            name: "adsb.fi".to_owned(),
            base_url,
            path_style: AdsbPathStyle::AdsbFiOpenData,
        }
    }
}

/// The aggregators that are asked where no others are configured, in the order
/// of their priority.
pub fn default_adsb_aggregators() -> (r: Vec<AdsbAggregator>)
    ensures
        r@.len() == 4,
        r@[0].name@ == "adsb.lol"@ && r@[0].base_url@ == ADSBLOL_BASE_URL@,
        r@[1].name@ == "airplanes.live"@ && r@[1].base_url@ == AIRPLANES_LIVE_BASE_URL@,
        r@[2].name@ == "adsb.fi"@ && r@[2].base_url@ == ADSBFI_BASE_URL@,
        r@[3].name@ == "ADSB.One"@ && r@[3].base_url@ == ADSBONE_BASE_URL@,
        forall|i: int|
            0 <= i < 4 ==> (#[trigger] r@[i]).path_style == if i == 2 {
                AdsbPathStyle::AdsbFiOpenData
            } else {
                AdsbPathStyle::ReadsbV2
            },
{
    let mut r: Vec<AdsbAggregator> = Vec::new();
    r.push(AdsbAggregator::readsb_v2("adsb.lol", ADSBLOL_BASE_URL.to_owned()));
    r.push(AdsbAggregator::readsb_v2("airplanes.live", AIRPLANES_LIVE_BASE_URL.to_owned()));
    r.push(AdsbAggregator::adsb_fi(ADSBFI_BASE_URL.to_owned()));
    r.push(AdsbAggregator::readsb_v2("ADSB.One", ADSBONE_BASE_URL.to_owned()));
    r
}

/// What is asked for. Coordinates are given as they are to be written.
#[derive(Clone, Copy, Debug)]
pub enum AdsbEndpoint<'a> {
    Point { lat: &'a str, lon: &'a str, radius_nm: u16 },
    Hex(&'a str),
    Callsign(&'a str),
}

/// What is asked for.
pub enum EndpointModel {
    Point { lat: Seq<char>, lon: Seq<char>, radius_nm: u16 },
    Hex(Seq<char>),
    Callsign(Seq<char>),
}

impl<'a> View for AdsbEndpoint<'a> {
    type V = EndpointModel;

    open spec fn view(&self) -> EndpointModel {
        match self {
            AdsbEndpoint::Point { lat, lon, radius_nm } => EndpointModel::Point {
                lat: lat@,
                lon: lon@,
                radius_nm: *radius_nm,
            },
            AdsbEndpoint::Hex(hex) => EndpointModel::Hex(hex@),
            AdsbEndpoint::Callsign(callsign) => EndpointModel::Callsign(callsign@),
        }
    }
}

/// `s` without the slashes at its end.
pub open spec fn without_slashes(s: Seq<char>) -> Seq<char>
    decreases s.len(),
{
    if s.len() > 0 && s.last() == '/' {
        without_slashes(s.drop_last())
    } else {
        s
    }
}

/// `s` without the slashes at its end.
pub fn trim_slashes(s: &str) -> (r: String)
    ensures
        r@ == without_slashes(s@),
{
    let v = slice::chars_of(s);
    let mut end: usize = v.len();
    assert(v@.take(end as int) =~= v@);
    while end > 0 && v[end - 1] == '/'
        invariant
            end <= v@.len(),
            without_slashes(v@.take(end as int)) == without_slashes(v@),
        decreases end,
    {
        assert(v@.take(end as int).drop_last() =~= v@.take(end - 1));
        end = end - 1;
    }
    let r = slice::text_between(&v, 0, end);
    assert(v@.subrange(0, end as int) =~= v@.take(end as int));
    r
}

impl EndpointModel {
    pub open spec fn kind(self) -> Seq<char> {
        match self {
            EndpointModel::Point { .. } => "point"@,
            EndpointModel::Hex(_) => "hex"@,
            EndpointModel::Callsign(_) => "callsign"@,
        }
    }

    /// The path below the base of an aggregator.
    pub open spec fn path(self, style: AdsbPathStyle) -> Seq<char> {
        match self {
            EndpointModel::Point { lat, lon, radius_nm } => match style {
                AdsbPathStyle::ReadsbV2 => "/point/"@ + lat + "/"@ + lon + "/"@ + number::decimal(
                    radius_nm as int,
                ),
                AdsbPathStyle::AdsbFiOpenData => "/lat/"@ + lat + "/lon/"@ + lon + "/dist/"@
                    + number::decimal(radius_nm as int),
            },
            EndpointModel::Hex(hex) => "/hex/"@ + hex,
            EndpointModel::Callsign(callsign) => "/callsign/"@ + callsign,
        }
    }

    pub open spec fn url(self, aggregator: AdsbAggregator) -> Seq<char> {
        without_slashes(aggregator.base_url@) + self.path(aggregator.path_style)
    }
}

impl<'a> AdsbEndpoint<'a> {
    /// The name of what is asked for.
    pub fn kind(&self) -> (r: &'static str)
        ensures
            r@ == self@.kind(),
    {
        match self {
            AdsbEndpoint::Point { .. } => "point",
            AdsbEndpoint::Hex(_) => "hex",
            AdsbEndpoint::Callsign(_) => "callsign",
        }
    }

    /// The address under which an aggregator is asked.
    pub fn url(&self, aggregator: &AdsbAggregator) -> (r: String)
        ensures
            r@ == self@.url(*aggregator),
    {
        let mut r = trim_slashes(aggregator.base_url.as_str());
        let ghost base = r@;
        match self {
            AdsbEndpoint::Point { lat, lon, radius_nm } => {
                let radius = number::unsigned_text(*radius_nm as u64);
                match aggregator.path_style {
                    AdsbPathStyle::ReadsbV2 => {
                        r.append("/point/");
                        r.append(lat);
                        r.append("/");
                        r.append(lon);
                        r.append("/");
                        r.append(radius.as_str());
                    },
                    AdsbPathStyle::AdsbFiOpenData => {
                        r.append("/lat/");
                        r.append(lat);
                        r.append("/lon/");
                        r.append(lon);
                        r.append("/dist/");
                        r.append(radius.as_str());
                    },
                }
                assert(r@ =~= base + self@.path(aggregator.path_style));
            },
            AdsbEndpoint::Hex(hex) => {
                r.append("/hex/");
                r.append(hex);
                assert(r@ =~= base + self@.path(aggregator.path_style));
            },
            AdsbEndpoint::Callsign(callsign) => {
                r.append("/callsign/");
                r.append(callsign);
                assert(r@ =~= base + self@.path(aggregator.path_style));
            },
        }
        r
    }
}

/// Why a request to an aggregator brought nothing.
#[derive(Debug)]
pub enum AdsbFetchError {
    /// Too many requests: the aggregator is left alone for a while.
    RateLimited,
    /// The aggregator refused the request.
    ProviderRefused { status: u16 },
    /// No answer in time. This does not count against the aggregator.
    Timeout(String),
    /// A failure that may pass.
    Retryable(String),
    /// The request could not be sent at all.
    Fatal(String),
}

/// Why a request to an aggregator brought nothing.
pub enum FetchErrorModel {
    RateLimited,
    ProviderRefused { status: u16 },
    Timeout(Seq<char>),
    Retryable(Seq<char>),
    Fatal(Seq<char>),
}

impl View for AdsbFetchError {
    type V = FetchErrorModel;

    open spec fn view(&self) -> FetchErrorModel {
        match self {
            AdsbFetchError::RateLimited => FetchErrorModel::RateLimited,
            AdsbFetchError::ProviderRefused { status } => FetchErrorModel::ProviderRefused {
                status: *status,
            },
            AdsbFetchError::Timeout(e) => FetchErrorModel::Timeout(e@),
            AdsbFetchError::Retryable(e) => FetchErrorModel::Retryable(e@),
            AdsbFetchError::Fatal(e) => FetchErrorModel::Fatal(e@),
        }
    }
}

/// What the status of an answer means. `shown` is the status as it is written.
pub open spec fn status_error(name: Seq<char>, status: u16, shown: Seq<char>) -> Option<
    FetchErrorModel,
> {
    if status == 429 {
        Some(FetchErrorModel::RateLimited)
    } else if 400 <= status <= 499 {
        Some(FetchErrorModel::ProviderRefused { status })
    } else if 200 <= status <= 299 {
        None
    } else {
        Some(FetchErrorModel::Retryable(name + " returned "@ + shown))
    }
}

/// What the status of an answer means: nothing where it is a success.
pub fn classify_status(name: &str, status: u16, shown: &str) -> (r: Option<AdsbFetchError>)
    ensures
        match r {
            Some(e) => status_error(name@, status, shown@) == Some(e@),
            None => status_error(name@, status, shown@) is None,
        },
{
    if status == 429 {
        return Some(AdsbFetchError::RateLimited);
    }
    if 400 <= status && status <= 499 {
        return Some(AdsbFetchError::ProviderRefused { status });
    }
    if 200 <= status && status <= 299 {
        return None;
    }
    let mut e = name.to_owned();
    e.append(" returned ");
    e.append(shown);
    Some(AdsbFetchError::Retryable(e))
}

/// Why a request could not be sent.
#[derive(Clone, Copy, Debug, PartialEq, Eq, Structural)]
pub enum SendFailure {
    Timeout,
    Connect,
    Other,
}

/// What a request that could not be sent means. Only failures that are known to
/// pass are retried.
pub fn classify_send_failure(name: &str, failure: SendFailure, cause: &str) -> (r: AdsbFetchError)
    ensures
        ({
            let text = "Failed to send request to "@ + name@ + ": "@ + cause@;
            r@ == match failure {
                SendFailure::Timeout => FetchErrorModel::Timeout(text),
                SendFailure::Connect => FetchErrorModel::Retryable(text),
                SendFailure::Other => FetchErrorModel::Fatal(text),
            }
        }),
{
    let mut text = "Failed to send request to ".to_owned();
    text.append(name);
    text.append(": ");
    text.append(cause);
    match failure {
        SendFailure::Timeout => AdsbFetchError::Timeout(text),
        SendFailure::Connect => AdsbFetchError::Retryable(text),
        SendFailure::Other => AdsbFetchError::Fatal(text),
    }
}

/// What an aggregator answered.
#[derive(Debug)]
pub struct Fetched {
    /// The place of the aggregator.
    pub index: usize,
    pub name: String,
    pub result: Result<Vec<NearbyAircraft>, AdsbFetchError>,
}

/// How an error shows in the report about an outage.
pub open spec fn outcome_text(name: Seq<char>, e: FetchErrorModel) -> Seq<char> {
    match e {
        FetchErrorModel::RateLimited => name + ":rate_limited:429"@,
        FetchErrorModel::ProviderRefused { status } => if status == 403 {
            name + ":forbidden_parked:403"@
        } else {
            name + ":client_response:"@ + number::decimal(status as int)
        },
        FetchErrorModel::Timeout(_) => name + ":timeout"@,
        FetchErrorModel::Retryable(_) => name + ":retryable_error"@,
        FetchErrorModel::Fatal(_) => name + ":fatal_error"@,
    }
}

/// The cause that an error gives.
pub open spec fn cause_text(name: Seq<char>, e: FetchErrorModel) -> Seq<char> {
    match e {
        FetchErrorModel::RateLimited => name + " returned 429"@,
        FetchErrorModel::ProviderRefused { status } => name + " returned "@ + number::decimal(
            status as int,
        ),
        FetchErrorModel::Timeout(text) => text,
        FetchErrorModel::Retryable(text) => text,
        FetchErrorModel::Fatal(text) => text,
    }
}

fn outcome_of(name: &str, e: &AdsbFetchError) -> (r: String)
    ensures
        r@ == outcome_text(name@, e@),
{
    let mut r = name.to_owned();
    match e {
        AdsbFetchError::RateLimited => {
            r.append(":rate_limited:429");
        },
        AdsbFetchError::ProviderRefused { status } => {
            if *status == 403 {
                r.append(":forbidden_parked:403");
            } else {
                r.append(":client_response:");
                r.append(number::unsigned_text(*status as u64).as_str());
            }
        },
        AdsbFetchError::Timeout(_) => {
            r.append(":timeout");
        },
        AdsbFetchError::Retryable(_) => {
            r.append(":retryable_error");
        },
        AdsbFetchError::Fatal(_) => {
            r.append(":fatal_error");
        },
    }
    r
}

fn cause_of(name: &str, e: &AdsbFetchError) -> (r: String)
    ensures
        r@ == cause_text(name@, e@),
{
    match e {
        AdsbFetchError::RateLimited => {
            let mut r = name.to_owned();
            r.append(" returned 429");
            r
        },
        AdsbFetchError::ProviderRefused { status } => {
            let mut r = name.to_owned();
            r.append(" returned ");
            r.append(number::unsigned_text(*status as u64).as_str());
            r
        },
        AdsbFetchError::Timeout(text) => text.clone(),
        AdsbFetchError::Retryable(text) => text.clone(),
        AdsbFetchError::Fatal(text) => text.clone(),
    }
}

/// The health of an aggregator after an answer or an error. Refusals with 403
/// and 429 park it, other failures are counted, and neither a timeout nor a
/// request that was never sent counts.
pub open spec fn health_after(
    h: BackendHealth,
    result: Result<Vec<NearbyAircraft>, AdsbFetchError>,
    until: Moment,
) -> BackendHealth {
    match result {
        Ok(_) => h.succeeded(),
        Err(e) => match e@ {
            FetchErrorModel::RateLimited => h.parked(until),
            FetchErrorModel::ProviderRefused { status } => if status == 403 {
                h.parked(until)
            } else {
                h.failed(until)
            },
            FetchErrorModel::Retryable(_) => h.failed(until),
            FetchErrorModel::Timeout(_) => h,
            FetchErrorModel::Fatal(_) => h,
        },
    }
}

/// The health of all aggregators after an answer or an error of one.
pub open spec fn health_with(
    backends: Seq<BackendHealth>,
    f: Fetched,
    until: Moment,
) -> Seq<BackendHealth> {
    if f.index < backends.len() {
        backends.update(
            f.index as int,
            health_after(backends[f.index as int], f.result, until),
        )
    } else {
        backends
    }
}

/// What a number of answers have come to.
pub struct TallyModel {
    pub backends: Seq<BackendHealth>,
    /// The reports of the aggregators that answered.
    pub reports: Seq<Vec<NearbyAircraft>>,
    /// The last error: its outcome and its cause.
    pub last: Option<(Seq<char>, Seq<char>)>,
}

/// What a number of answers have come to.
pub open spec fn tally(
    backends: Seq<BackendHealth>,
    fetched: Seq<Fetched>,
    until: Moment,
) -> TallyModel
    decreases fetched.len(),
{
    if fetched.len() == 0 {
        TallyModel { backends, reports: Seq::empty(), last: None }
    } else {
        let before = tally(backends, fetched.drop_last(), until);
        let f = fetched.last();
        TallyModel {
            backends: health_with(before.backends, f, until),
            reports: match f.result {
                Ok(list) => before.reports.push(list),
                Err(_) => before.reports,
            },
            last: match f.result {
                Ok(_) => before.last,
                Err(e) => Some((outcome_text(f.name@, e@), cause_text(f.name@, e@))),
            },
        }
    }
}

/// Why no aggregator brought anything: what happened, and the cause where there
/// is one.
#[derive(Debug)]
pub struct FetchFailure {
    pub context: String,
    pub cause: Option<String>,
}

/// The report about an outage of all aggregators.
pub open spec fn outage_text(
    kind: Seq<char>,
    configured: int,
    parked: int,
    outcome: Seq<char>,
) -> Seq<char> {
    "all_backends_unavailable endpoint_kind="@ + kind + " configured_backends="@ + number::decimal(
        configured,
    ) + " parked_backends="@ + number::decimal(parked) + " last_provider_outcome="@ + outcome
}

fn outage_report(kind: &str, configured: usize, parked: usize, outcome: &str) -> (r: String)
    ensures
        r@ == outage_text(kind@, configured as int, parked as int, outcome@),
{
    let mut r = "all_backends_unavailable endpoint_kind=".to_owned();
    r.append(kind);
    r.append(" configured_backends=");
    r.append(number::unsigned_text(configured as u64).as_str());
    r.append(" parked_backends=");
    r.append(number::unsigned_text(parked as u64).as_str());
    r.append(" last_provider_outcome=");
    r.append(outcome);
    r
}

/// A request to an aggregator.
#[derive(Debug)]
pub struct FetchPlan {
    /// The place of the aggregator.
    pub index: usize,
    pub url: String,
}

/// Plans the requests to all aggregators that are asked, in the order of their
/// priority.
pub fn plan_fetch(
    aggregators: &Vec<AdsbAggregator>,
    health: &Health,
    endpoint: &AdsbEndpoint<'_>,
    now: Moment,
) -> (r: Result<Vec<FetchPlan>, FetchFailure>)
    requires
        health.backends@.len() == aggregators@.len(),
    ensures
        ({
            let live = health::live_places(health.backends@, now);
            match r {
                Ok(plans) => live.len() > 0 && plans@.len() == live.len() && forall|i: int|
                    0 <= i < plans@.len() ==> (#[trigger] plans@[i]).index == live[i]
                        && plans@[i].url@ == endpoint@.url(aggregators@[live[i]]),
                Err(e) => live.len() == 0 && e.cause is None && e.context@
                    == if aggregators@.len() == 0 {
                    "No ADS-B aggregators configured"@
                } else {
                    outage_text(
                        endpoint@.kind(),
                        aggregators@.len() as int,
                        aggregators@.len() as int,
                        "all_parked"@,
                    )
                },
            }
        }),
{
    if aggregators.len() == 0 {
        return Err(
            FetchFailure { context: "No ADS-B aggregators configured".to_owned(), cause: None },
        );
    }
    let live = health.live_backend_indices(now);
    let ghost order = health::live_places(health.backends@, now);
    assert(order.len() == live@.len());
    if live.len() == 0 {
        let parked: usize = health.parked_backend_count(now);
        return Err(
            FetchFailure {
                context: outage_report(endpoint.kind(), aggregators.len(), parked, "all_parked"),
                cause: None,
            },
        );
    }
    let mut plans: Vec<FetchPlan> = Vec::new();
    let mut i: usize = 0;
    while i < live.len()
        invariant
            i <= live@.len(),
            order == health::places(live@),
            health.backends@.len() == aggregators@.len(),
            forall|j: int| 0 <= j < live@.len() ==> (#[trigger] live@[j]) < health.backends@.len(),
            plans@.len() == i,
            forall|j: int|
                0 <= j < i ==> (#[trigger] plans@[j]).index == order[j] && plans@[j].url@
                    == endpoint@.url(aggregators@[order[j]]),
        decreases live@.len() - i,
    {
        let index: usize = live[i];
        assert(order[i as int] == index);
        plans.push(FetchPlan { index, url: endpoint.url(&aggregators[index]) });
        i = i + 1;
    }
    Ok(plans)
}

fn note_health(health: &mut Health, f: &Fetched, now: Moment)
    requires
        old(health).in_range(now),
    ensures
        final(health).cooldown == old(health).cooldown,
        final(health).backends@ == health_with(
            old(health).backends@,
            *f,
            old(health).until(now),
        ),
{
    match &f.result {
        Ok(_) => health.record_success(f.index),
        Err(e) => match e {
            AdsbFetchError::RateLimited => health.park_backend(f.index, now),
            AdsbFetchError::ProviderRefused { status } => {
                if *status == 403 {
                    health.park_backend(f.index, now);
                } else {
                    health.record_retryable_error(f.index, now);
                }
            },
            AdsbFetchError::Retryable(_) => health.record_retryable_error(f.index, now),
            AdsbFetchError::Timeout(_) => {},
            AdsbFetchError::Fatal(_) => {},
        },
    }
    assert(health.backends@ =~= health_with(old(health).backends@, *f, old(health).until(now)));
}

/// Takes the answers of the aggregators into account: their health, and the
/// union of what they report. It is a failure where none of them answered.
pub fn absorb_fetches(
    health: &mut Health,
    fetched: &Vec<Fetched>,
    endpoint: &AdsbEndpoint<'_>,
    now: Moment,
) -> (r: Result<Vec<NearbyAircraft>, FetchFailure>)
    requires
        old(health).in_range(now),
    ensures
        final(health).cooldown == old(health).cooldown,
        ({
            let t = tally(old(health).backends@, fetched@, old(health).until(now));
            let parked = t.backends.len() - health::live_places(t.backends, now).len();
            &&& final(health).backends@ == t.backends
            &&& match r {
                Ok(list) => t.reports.len() > 0 && merge::aircraft_models(list@) == merge::merged(
                    merge::gathered(t.reports),
                ),
                Err(e) => {
                    &&& t.reports.len() == 0
                    &&& e.context@ == outage_text(
                        endpoint@.kind(),
                        t.backends.len() as int,
                        parked,
                        match t.last {
                            Some(l) => l.0,
                            None => "unknown"@,
                        },
                    )
                    &&& slice::opt_text(e.cause) == Some(
                        match t.last {
                            Some(l) => l.1,
                            None => "All ADS-B aggregators failed"@,
                        },
                    )
                },
            }
        }),
{
    let ghost backends = health.backends@;
    let ghost until = health.until(now);
    let mut reports: Vec<Vec<NearbyAircraft>> = Vec::new();
    let mut outcome: Option<String> = None;
    let mut cause: Option<String> = None;
    let mut i: usize = 0;
    while i < fetched.len()
        invariant
            i <= fetched@.len(),
            health.in_range(now),
            health.cooldown == old(health).cooldown,
            until == health.until(now),
            backends == old(health).backends@,
            ({
                let t = tally(backends, fetched@.take(i as int), until);
                &&& health.backends@ == t.backends
                &&& merge::gathered(reports@) == merge::gathered(t.reports)
                &&& reports@.len() == t.reports.len()
                &&& (outcome is Some <==> t.last is Some)
                &&& (cause is Some <==> t.last is Some)
                &&& t.last is Some ==> (outcome->0@, cause->0@) == t.last->0
            }),
        decreases fetched@.len() - i,
    {
        let f = &fetched[i];
        let ghost before = tally(backends, fetched@.take(i as int), until);
        assert(fetched@.take(i + 1).drop_last() =~= fetched@.take(i as int));
        assert(fetched@.take(i + 1).last() == *f);
        note_health(health, f, now);
        match &f.result {
            Ok(list) => {
                let copy = copy_reports(list);
                let ghost was = reports@;
                let ghost held = copy@;
                reports.push(copy);
                proof {
                    assert(reports@.drop_last() =~= was);
                    assert(before.reports.push(*list).drop_last() =~= before.reports);
                    assert(merge::gathered(reports@) == merge::gathered(was)
                        + merge::aircraft_models(held));
                }
            },
            Err(e) => {
                outcome = Some(outcome_of(f.name.as_str(), e));
                cause = Some(cause_of(f.name.as_str(), e));
            },
        }
        i = i + 1;
    }
    assert(fetched@.take(i as int) =~= fetched@);
    if reports.len() > 0 {
        return Ok(merge::merge_aircraft(&reports));
    }
    let parked: usize = health.parked_backend_count(now);
    let shown = match &outcome {
        Some(o) => o.as_str(),
        None => "unknown",
    };
    let context = outage_report(endpoint.kind(), health.backends.len(), parked, shown);
    let cause = match cause {
        Some(c) => c,
        None => "All ADS-B aggregators failed".to_owned(),
    };
    Err(FetchFailure { context, cause: Some(cause) })
}

fn copy_reports(list: &Vec<NearbyAircraft>) -> (r: Vec<NearbyAircraft>)
    ensures
        merge::aircraft_models(r@) == merge::aircraft_models(list@),
{
    let mut r: Vec<NearbyAircraft> = Vec::new();
    let mut i: usize = 0;
    while i < list.len()
        invariant
            i <= list@.len(),
            r@.len() == i,
            forall|j: int| 0 <= j < i ==> (#[trigger] r@[j])@ == list@[j]@,
        decreases list@.len() - i,
    {
        r.push(list[i].duplicate());
        i = i + 1;
    }
    assert(merge::aircraft_models(r@) =~= merge::aircraft_models(list@));
    r
}

/// Whether an outage of all aggregators is to be logged: not where that was
/// done a moment ago. If so, the moment is remembered.
pub fn outage_log_due(last_logged: &mut Option<Moment>, now: Moment) -> (b: bool)
    requires
        *old(last_logged) is Some ==> old(last_logged)->0.nanos <= now.nanos,
    ensures
        b == !(*old(last_logged) is Some && now.nanos - old(last_logged)->0.nanos
            < ADSB_AGGREGATE_OUTAGE_LOG_COOLDOWN),
        *final(last_logged) == if b {
            Some(now)
        } else {
            *old(last_logged)
        },
{
    if let Some(previous) = *last_logged {
        if now.nanos - previous.nanos < ADSB_AGGREGATE_OUTAGE_LOG_COOLDOWN {
            return false;
        }
    }
    *last_logged = Some(now);
    true
}

} // verus!
