//! A request to track a flight, from the first check to the new track.
//!
//! Outside work comes in between: a callsign is resolved, metadata is looked
//! up, the aircraft is looked for, a route is fetched. Each stage says what is
//! to be done next and takes what came of it.

use vstd::prelude::*;
use vstd::string::StringExecFns;

use super::advance;
use super::advance::{OutcomeModel, PollOutcome};
use super::cache;
use super::cache::{AviationstackLookup, LookupModel, LookupStep, LookupStepModel};
use super::commands;
use super::debug_journal;
use super::debug_journal::{
    DebugHttpOutcome, EventModel, FlightTrackerDebugEvent, HttpOutcomeModel,
};
use super::metadata;
use super::phase;
use super::state;
use super::{
    CacheEntryModel, FlightIdentifier, FlightModel, FlightPhase, FlightTrackerState, HexSource,
    IdentifierModel, TargetConfirmation, TrackedFlight, TrackerModel, MAX_FLIGHTS_PER_USER,
    MAX_TRACKED_FLIGHTS,
};
use crate::aviation::airports;
use crate::aviation::airports::{Airports, PositionModel};
use crate::aviation::codes;
use crate::aviation::types::{AviationstackFlightMetadata, MetadataModel, NearbyAircraft};
use crate::text::{chars, number, slice};
use crate::time::Timestamp;

verus! {

/// A request to track a flight.
#[derive(Debug)]
pub struct TrackRequest {
    pub identifier: FlightIdentifier,
    pub requested_by: String,
    /// The metadata provider can be asked.
    pub provider_enabled: bool,
}

/// What a request holds.
pub struct RequestModel {
    pub identifier: IdentifierModel,
    pub requested_by: Seq<char>,
    pub provider_enabled: bool,
}

impl View for TrackRequest {
    type V = RequestModel;

    open spec fn view(&self) -> RequestModel {
        RequestModel {
            identifier: self.identifier@,
            requested_by: self.requested_by@,
            provider_enabled: self.provider_enabled,
        }
    }
}

/// A flight that is about to be tracked.
#[derive(Debug)]
pub struct Opening {
    pub request: TrackRequest,
    pub flight: TrackedFlight,
    /// The summary of the metadata, for the answer.
    pub info: Option<String>,
    /// The metadata lookup came back empty, which the answer mentions.
    pub fallback: bool,
    pub now: Timestamp,
}

/// What a flight that is about to be tracked holds.
pub struct OpeningModel {
    pub request: RequestModel,
    pub flight: FlightModel,
    pub info: Option<Seq<char>>,
    pub fallback: bool,
    pub now: Timestamp,
}

impl View for Opening {
    type V = OpeningModel;

    open spec fn view(&self) -> OpeningModel {
        OpeningModel {
            request: self.request@,
            flight: self.flight@,
            info: slice::opt_text(self.info),
            fallback: self.fallback,
            now: self.now,
        }
    }
}

impl OpeningModel {
    pub open spec fn valid(self) -> bool {
        self.flight.valid() && self.now.valid()
    }
}

/// How an aircraft is looked for.
#[derive(Debug)]
pub enum PollQuery {
    Hex(String),
    /// The callsigns are tried in turn, until one is found.
    Callsigns(Vec<String>),
}

/// How an aircraft is looked for.
pub enum QueryModel {
    Hex(Seq<char>),
    Callsigns(Seq<Seq<char>>),
}

impl View for PollQuery {
    type V = QueryModel;

    open spec fn view(&self) -> QueryModel {
        match self {
            PollQuery::Hex(hex) => QueryModel::Hex(hex@),
            PollQuery::Callsigns(v) => QueryModel::Callsigns(slice::texts(v@)),
        }
    }
}

/// What a route lookup came back with.
#[derive(Debug)]
pub enum RouteOutcome {
    Found { origin: String, destination: String },
    NotFound,
    Failed,
    TimedOut,
}

/// What a route lookup came back with.
pub enum RouteOutcomeModel {
    Found { origin: Seq<char>, destination: Seq<char> },
    NotFound,
    Failed,
    TimedOut,
}

impl View for RouteOutcome {
    type V = RouteOutcomeModel;

    open spec fn view(&self) -> RouteOutcomeModel {
        match self {
            RouteOutcome::Found { origin, destination } => RouteOutcomeModel::Found {
                origin: origin@,
                destination: destination@,
            },
            RouteOutcome::NotFound => RouteOutcomeModel::NotFound,
            RouteOutcome::Failed => RouteOutcomeModel::Failed,
            RouteOutcome::TimedOut => RouteOutcomeModel::TimedOut,
        }
    }
}

/// The requested callsign is to be resolved to the operating one.
#[derive(Debug)]
pub struct Resolving {
    pub request: TrackRequest,
}

/// The metadata provider is to be asked about the flight.
#[derive(Debug)]
pub struct Asking {
    pub request: TrackRequest,
    pub callsign: Option<String>,
    pub aliases: Vec<String>,
    pub cache_changed: bool,
    pub now: Timestamp,
}

/// The aircraft is to be looked for.
#[derive(Debug)]
pub struct Polling {
    pub opening: Opening,
    pub query: PollQuery,
}

/// The metadata provider is to be asked about a flight whose callsign has only
/// come up with the aircraft.
#[derive(Debug)]
pub struct AskingAgain {
    pub opening: Opening,
    pub aliases: Vec<String>,
    pub cache_changed: bool,
}

/// The route of the flight is to be looked up.
#[derive(Debug)]
pub struct Routing {
    pub opening: Opening,
    pub callsign: String,
    /// Only a route that is found is recorded.
    pub quiet: bool,
}

/// What is to be done next.
#[derive(Debug)]
pub enum TrackNext {
    Resolve(Resolving),
    AskProvider(Asking),
    Poll(Polling),
    AskAgain(AskingAgain),
    FetchRoute(Routing),
    /// The request has been dealt with. The answer is to be sent, and the
    /// state is to be stored if it changed.
    Reply { text: String, save: bool },
}

/// What is to be done next.
pub enum NextModel {
    Resolve { request: RequestModel },
    AskProvider {
        request: RequestModel,
        callsign: Option<Seq<char>>,
        aliases: Seq<Seq<char>>,
        cache_changed: bool,
        now: Timestamp,
    },
    Poll { opening: OpeningModel, query: QueryModel },
    AskAgain { opening: OpeningModel, aliases: Seq<Seq<char>>, cache_changed: bool },
    FetchRoute { opening: OpeningModel, flies_as: Seq<char>, quiet: bool },
    Reply { text: Seq<char>, save: bool },
}

impl View for TrackNext {
    type V = NextModel;

    open spec fn view(&self) -> NextModel {
        match self {
            TrackNext::Resolve(s) => NextModel::Resolve { request: s.request@ },
            TrackNext::AskProvider(s) => NextModel::AskProvider {
                request: s.request@,
                callsign: slice::opt_text(s.callsign),
                aliases: slice::texts(s.aliases@),
                cache_changed: s.cache_changed,
                now: s.now,
            },
            TrackNext::Poll(s) => NextModel::Poll { opening: s.opening@, query: s.query@ },
            TrackNext::AskAgain(s) => NextModel::AskAgain {
                opening: s.opening@,
                aliases: slice::texts(s.aliases@),
                cache_changed: s.cache_changed,
            },
            TrackNext::FetchRoute(s) => NextModel::FetchRoute {
                opening: s.opening@,
                flies_as: s.callsign@,
                quiet: s.quiet,
            },
            TrackNext::Reply { text, save } => NextModel::Reply { text: text@, save: *save },
        }
    }
}

impl NextModel {
    /// Every instant that is carried along lies inside the calendar.
    pub open spec fn valid(self) -> bool {
        match self {
            NextModel::Resolve { .. } => true,
            NextModel::AskProvider { now, .. } => now.valid(),
            NextModel::Poll { opening, .. } => opening.valid(),
            NextModel::AskAgain { opening, .. } => opening.valid(),
            NextModel::FetchRoute { opening, .. } => opening.valid(),
            NextModel::Reply { .. } => true,
        }
    }
}

/// A stage of a request: what is to be recorded, and what is to be done next.
#[derive(Debug)]
pub struct TrackStep {
    pub journal: Vec<FlightTrackerDebugEvent>,
    pub next: TrackNext,
}

/// A stage of a request.
pub struct StepModel {
    pub journal: Seq<EventModel>,
    pub next: NextModel,
}

impl View for TrackStep {
    type V = StepModel;

    open spec fn view(&self) -> StepModel {
        StepModel { journal: debug_journal::event_models(self.journal@), next: self.next@ }
    }
}

/// The answer where the flight is tracked already.
pub open spec fn already_text(identifier: IdentifierModel) -> Seq<char> {
    identifier.text() + " wird bereits getrackt | Status: aktiv FDM"@
}

fn already_reply(identifier: &FlightIdentifier) -> (r: String)
    ensures
        r@ == already_text(identifier@),
{
    let mut r = identifier.as_str().to_owned();
    r.append(" wird bereits getrackt | Status: aktiv FDM");
    r
}

/// The answer where no aircraft is the flight.
pub open spec fn no_signal_text(identifier: IdentifierModel) -> Seq<char> {
    identifier.text() + " nicht gefunden | Provider: ADS-B | Grund: kein passendes Signal FDM"@
}

fn no_signal_reply(identifier: &FlightIdentifier) -> (r: String)
    ensures
        r@ == no_signal_text(identifier@),
{
    let mut r = identifier.as_str().to_owned();
    r.append(" nicht gefunden | Provider: ADS-B | Grund: kein passendes Signal FDM");
    r
}

/// The answer where too many flights are tracked.
pub open spec fn full_text() -> Seq<char> {
    "Track-Limit erreicht: maximal "@ + number::decimal(MAX_TRACKED_FLIGHTS as int)
        + " aktive Flüge gleichzeitig FDM"@
}

fn full_reply() -> (r: String)
    ensures
        r@ == full_text(),
{
    let mut r = "Track-Limit erreicht: maximal ".to_owned();
    r.append(number::unsigned_text(MAX_TRACKED_FLIGHTS as u64).as_str());
    r.append(" aktive Flüge gleichzeitig FDM");
    r
}

/// The answer where the user tracks too many flights.
pub open spec fn user_full_text() -> Seq<char> {
    "Track-Limit erreicht: du trackst bereits "@ + number::decimal(MAX_FLIGHTS_PER_USER as int)
        + " Flüge FDM"@
}

fn user_full_reply() -> (r: String)
    ensures
        r@ == user_full_text(),
{
    let mut r = "Track-Limit erreicht: du trackst bereits ".to_owned();
    r.append(number::unsigned_text(MAX_FLIGHTS_PER_USER as u64).as_str());
    r.append(" Flüge FDM");
    r
}

/// The number of flights that a user tracks.
pub open spec fn flights_of(flights: Seq<FlightModel>, user: Seq<char>) -> nat {
    state::how_many(flights, |f: FlightModel| f.tracked_by == user)
}

fn count_flights_of(flights: &Vec<TrackedFlight>, user: &str) -> (n: usize)
    ensures
        n == flights_of(super::flight_models(flights@), user@),
{
    let ghost all = super::flight_models(flights@);
    let ghost p = |f: FlightModel| f.tracked_by == user@;
    let mut n: usize = 0;
    let mut i: usize = 0;
    while i < flights.len()
        invariant
            i <= flights@.len(),
            n <= i,
            all == super::flight_models(flights@),
            p == |f: FlightModel| f.tracked_by == user@,
            n == state::how_many(all.take(i as int), p),
        decreases flights@.len() - i,
    {
        assert(all.take(i + 1).drop_last() =~= all.take(i as int));
        assert(all.take(i + 1).last() == flights@[i as int]@);
        if slice::same(flights[i].tracked_by.as_str(), user) {
            n = n + 1;
        }
        i = i + 1;
    }
    assert(all.take(i as int) =~= all);
    n
}

impl FlightModel {
    /// A flight as it is requested.
    pub open spec fn requested(
        r: RequestModel,
        callsign: Option<Seq<char>>,
        checked: bool,
        now: Timestamp,
    ) -> FlightModel {
        FlightModel {
            identifier: r.identifier,
            callsign,
            alias_callsigns: Seq::empty(),
            hex: match r.identifier {
                IdentifierModel::Hex(hex) => Some(hex),
                IdentifierModel::Callsign(_) => None,
            },
            hex_source: if r.identifier is Hex {
                Some(HexSource::UserInput)
            } else {
                None
            },
            observed_callsign: None,
            target_confirmation: TargetConfirmation::Pending,
            phase: FlightPhase::Unknown,
            route: None,
            aircraft_type: None,
            altitude_ft: None,
            vertical_rate_fpm: None,
            ground_speed_kts: None,
            lat: None,
            lon: None,
            squawk: None,
            tracked_by: r.requested_by,
            tracked_at: now,
            last_seen: None,
            last_visible_at: None,
            last_phase_change: None,
            polls_since_change: 0,
            takeoff_at: None,
            aviationstack_checked: checked,
            scheduled_departure_at: None,
            last_adsb_poll_at: None,
            divert_consecutive_polls: 0,
            dest_lat: None,
            dest_lon: None,
        }
    }
}

/// The coordinates of the airport of arrival.
pub open spec fn arrival_coords(airports: Seq<PositionModel>, m: MetadataModel) -> Option<
    (crate::decimal::Decimal, crate::decimal::Decimal),
> {
    match m.arrival_iata {
        Some(iata) => airports::destination_coords(airports, iata),
        None => None,
    }
}

/// The flight with optional metadata.
#[verifier::opaque]
pub open spec fn enriched(
    f: FlightModel,
    m: Option<MetadataModel>,
    airports: Seq<PositionModel>,
) -> FlightModel {
    match m {
        Some(m) => metadata::with_metadata(f, m, arrival_coords(airports, m)),
        None => f,
    }
}

/// How a metadata lookup is recorded.
pub open spec fn lookup_http(m: Option<MetadataModel>) -> HttpOutcomeModel {
    HttpOutcomeModel::of(
        "aviationstack"@,
        "flight_metadata"@,
        if m is Some {
            "success"@
        } else {
            "miss"@
        },
        None,
    )
}

/// How a route lookup is recorded.
pub open spec fn route_http(outcome: Seq<char>) -> HttpOutcomeModel {
    HttpOutcomeModel::of("adsbdb"@, "flight_route"@, outcome, None)
}

/// The flight once its route has been looked up.
pub open spec fn with_route(
    f: FlightModel,
    outcome: RouteOutcomeModel,
    airports: Seq<PositionModel>,
) -> FlightModel {
    match outcome {
        RouteOutcomeModel::Found { origin, destination } => metadata::routed(
            f,
            origin,
            destination,
            airports::destination_coords(airports, destination),
        ),
        _ => f,
    }
}

/// The entry about a route lookup, where `f` is the flight after it.
pub open spec fn route_event(
    f: FlightModel,
    callsign: Seq<char>,
    outcome: RouteOutcomeModel,
) -> EventModel {
    match outcome {
        RouteOutcomeModel::Found { origin, destination } => debug_journal::lookup_event(
            f.identifier.text(),
            Some(callsign),
            route_http("success"@),
            Some(origin),
            Some(destination),
            f.dest_lat is Some && f.dest_lon is Some,
        ),
        RouteOutcomeModel::NotFound => debug_journal::lookup_event(
            f.identifier.text(),
            Some(callsign),
            route_http("miss"@),
            None,
            None,
            false,
        ),
        RouteOutcomeModel::Failed => debug_journal::lookup_event(
            f.identifier.text(),
            Some(callsign),
            route_http("error"@),
            None,
            None,
            false,
        ),
        RouteOutcomeModel::TimedOut => debug_journal::lookup_event(
            f.identifier.text(),
            Some(callsign),
            route_http("timeout"@),
            None,
            None,
            false,
        ),
    }
}

/// Takes the outcome of a route lookup into account, and returns the entry
/// about it.
pub fn take_route(
    flight: &mut TrackedFlight,
    callsign: &str,
    outcome: &RouteOutcome,
    airports: &Airports,
) -> (r: FlightTrackerDebugEvent)
    ensures
        final(flight)@ == with_route(old(flight)@, outcome@, airports@),
        r@ == route_event(final(flight)@, callsign@, outcome@),
{
    match outcome {
        RouteOutcome::Found { origin, destination } => {
            let coords = airports.destination(destination.as_str());
            metadata::set_route_from_iata(flight, origin.as_str(), destination.as_str(), coords);
            FlightTrackerDebugEvent::flight_route_lookup(
                flight.identifier.as_str(),
                Some(callsign),
                &DebugHttpOutcome::success("adsbdb", "flight_route"),
                Some(origin.as_str()),
                Some(destination.as_str()),
                flight.dest_lat.is_some() && flight.dest_lon.is_some(),
            )
        },
        RouteOutcome::NotFound => FlightTrackerDebugEvent::flight_route_lookup(
            flight.identifier.as_str(),
            Some(callsign),
            &DebugHttpOutcome::miss("adsbdb", "flight_route"),
            None,
            None,
            false,
        ),
        RouteOutcome::Failed => FlightTrackerDebugEvent::flight_route_lookup(
            flight.identifier.as_str(),
            Some(callsign),
            &DebugHttpOutcome::error("adsbdb", "flight_route"),
            None,
            None,
            false,
        ),
        RouteOutcome::TimedOut => FlightTrackerDebugEvent::flight_route_lookup(
            flight.identifier.as_str(),
            Some(callsign),
            &DebugHttpOutcome::timeout("adsbdb", "flight_route"),
            None,
            None,
            false,
        ),
    }
}

impl OpeningModel {
    /// The flight that is about to be tracked, once its metadata has been
    /// looked up.
    pub open spec fn of(
        r: RequestModel,
        callsign: Option<Seq<char>>,
        lookup: LookupModel,
        airports: Seq<PositionModel>,
        now: Timestamp,
    ) -> OpeningModel {
        OpeningModel {
            request: r,
            flight: enriched(
                metadata::seeded(FlightModel::requested(r, callsign, lookup.checked, now)),
                lookup.metadata,
                airports,
            ),
            info: match lookup.metadata {
                Some(m) => Some(m.info_text()),
                None => None,
            },
            fallback: lookup.checked && lookup.metadata is None && r.identifier is Callsign,
            now,
        }
    }

    /// The flight is tracked even where no aircraft can be found for it.
    pub open spec fn patient(self) -> bool {
        self.request.identifier is Callsign && self.request.provider_enabled
    }
}

impl TrackerModel {
    /// Why a request is refused at once, if it is.
    pub open spec fn refusal(self, r: RequestModel) -> Option<Seq<char>> {
        if self.flights.len() >= MAX_TRACKED_FLIGHTS {
            Some(full_text())
        } else if flights_of(self.flights, r.requested_by) >= MAX_FLIGHTS_PER_USER {
            Some(user_full_text())
        } else if commands::has_duplicate(self.flights, r.identifier, None, None) {
            Some(already_text(r.identifier))
        } else {
            None
        }
    }

    /// A request comes in.
    pub open spec fn on_request(
        self,
        r: RequestModel,
        airports: Seq<PositionModel>,
        now: Timestamp,
    ) -> (TrackerModel, StepModel) {
        match self.refusal(r) {
            Some(text) => (
                self,
                StepModel { journal: Seq::empty(), next: NextModel::Reply { text, save: false } },
            ),
            None => if r.identifier is Callsign {
                (
                    self,
                    StepModel {
                        journal: Seq::empty(),
                        next: NextModel::Resolve { request: r },
                    },
                )
            } else {
                self.on_lookup(
                    r,
                    None,
                    LookupModel {
                        checked: false,
                        metadata: None,
                        cache_changed: false,
                        failed: false,
                    },
                    false,
                    airports,
                    now,
                )
            },
        }
    }

    /// The requested callsign has been resolved.
    pub open spec fn on_resolved(
        self,
        r: RequestModel,
        callsign: Seq<char>,
        airports: Seq<PositionModel>,
        now: Timestamp,
    ) -> (TrackerModel, StepModel) {
        if !chars::same_ignoring_case(callsign, r.identifier.text()) && commands::has_duplicate(
            self.flights,
            r.identifier,
            Some(callsign),
            None,
        ) {
            (
                self,
                StepModel {
                    journal: Seq::empty(),
                    next: NextModel::Reply { text: already_text(r.identifier), save: false },
                },
            )
        } else {
            match self.lookup_step(r.identifier, Some(callsign), r.provider_enabled, now) {
                LookupStepModel::Done(lookup) => self.pruned(now).on_lookup(
                    r,
                    Some(callsign),
                    lookup,
                    lookup.checked,
                    airports,
                    now,
                ),
                LookupStepModel::AskProvider { aliases, cache_changed } => (
                    self.pruned(now),
                    StepModel {
                        journal: Seq::empty(),
                        next: NextModel::AskProvider {
                            request: r,
                            callsign: Some(callsign),
                            aliases,
                            cache_changed,
                            now,
                        },
                    },
                ),
            }
        }
    }

    /// The tracker once the provider has answered.
    pub open spec fn told(
        self,
        aliases: Seq<Seq<char>>,
        answer: Result<Option<MetadataModel>, ()>,
        now: Timestamp,
    ) -> TrackerModel {
        match answer {
            Ok(m) => TrackerModel { cache: cache::upserted(self.cache, aliases, m, now), ..self },
            Err(_) => self,
        }
    }

    /// The metadata of a requested flight has been looked up, in the cache or
    /// with the provider.
    #[verifier::opaque]
    pub open spec fn on_lookup(
        self,
        r: RequestModel,
        callsign: Option<Seq<char>>,
        lookup: LookupModel,
        cache_hit: bool,
        airports: Seq<PositionModel>,
        now: Timestamp,
    ) -> (TrackerModel, StepModel) {
        let journal = if r.identifier is Callsign {
            seq![
                debug_journal::enrichment_event(
                    r.identifier,
                    callsign,
                    lookup_http(lookup.metadata),
                    lookup.metadata,
                    cache_hit,
                ),
            ]
        } else {
            Seq::empty()
        };
        let opening = OpeningModel::of(r, callsign, lookup, airports, now);
        let f = opening.flight;
        if commands::has_duplicate(self.flights, r.identifier, f.callsign, f.hex) {
            (
                self,
                StepModel {
                    journal,
                    next: NextModel::Reply {
                        text: already_text(r.identifier),
                        save: lookup.cache_changed,
                    },
                },
            )
        } else if f.chills(now) {
            self.on_searched(opening, airports, journal)
        } else if f.polled_by_hex() {
            match f.hex {
                Some(hex) => (
                    self,
                    StepModel {
                        journal,
                        next: NextModel::Poll { opening, query: QueryModel::Hex(hex) },
                    },
                ),
                None => self.on_searched(opening, airports, journal),
            }
        } else if f.candidates().len() > 0 {
            (
                self,
                StepModel {
                    journal,
                    next: NextModel::Poll {
                        opening,
                        query: QueryModel::Callsigns(f.candidates()),
                    },
                },
            )
        } else {
            self.on_searched(opening, airports, journal)
        }
    }

    /// The aircraft has been looked for. A callsign that could be an address
    /// is tried as one too.
    #[verifier::opaque]
    pub open spec fn on_polled(
        self,
        o: OpeningModel,
        query: QueryModel,
        outcome: OutcomeModel,
        airports: Seq<PositionModel>,
    ) -> (TrackerModel, StepModel) {
        let id = o.request.identifier;
        let polled = OpeningModel {
            flight: FlightModel { last_adsb_poll_at: Some(o.now), ..o.flight },
            ..o
        };
        if outcome is Miss && query is Callsigns && id is Callsign && codes::icao24(id.text()) {
            (
                self,
                StepModel {
                    journal: Seq::empty(),
                    next: NextModel::Poll { opening: o, query: QueryModel::Hex(id.text()) },
                },
            )
        } else {
            match outcome {
                OutcomeModel::Hit(ac) => {
                    let used_hex = query is Hex && o.flight.hex is Some;
                    match polled.flight.confirmation_by(ac, used_hex, o.now) {
                        Some(confirmation) => self.on_searched(
                            OpeningModel {
                                flight: polled.flight.first_seen(ac, confirmation, o.now),
                                ..o
                            },
                            airports,
                            Seq::empty(),
                        ),
                        None => if o.patient() {
                            self.on_identified(
                                OpeningModel {
                                    flight: FlightModel {
                                        polls_since_change: advance::one_more(
                                            polled.flight.polls_since_change,
                                        ),
                                        ..polled.flight
                                    },
                                    ..o
                                },
                                true,
                                Seq::empty(),
                            )
                        } else {
                            self.refused(no_signal_text(id))
                        },
                    }
                },
                OutcomeModel::Miss => if o.patient() {
                    self.on_searched(polled, airports, Seq::empty())
                } else {
                    self.refused(no_signal_text(id))
                },
                OutcomeModel::Error => if o.patient() {
                    self.on_searched(polled, airports, Seq::empty())
                } else {
                    self.refused(
                        "Provider-Problem: ADS-B down | Grund: Anfrage fehlgeschlagen FDM"@,
                    )
                },
                OutcomeModel::Timeout => if o.patient() {
                    self.on_searched(polled, airports, Seq::empty())
                } else {
                    self.refused(
                        "Provider-Problem: Timeout | Provider: ADS-B | Grund: Anfrage dauerte zu lange FDM"@,
                    )
                },
            }
        }
    }

    /// The request is refused, and nothing changes.
    pub open spec fn refused(self, text: Seq<char>) -> (TrackerModel, StepModel) {
        (
            self,
            StepModel { journal: Seq::empty(), next: NextModel::Reply { text, save: false } },
        )
    }

    /// The search for the aircraft is over. Metadata is looked up for a callsign
    /// that has only come up with the aircraft.
    #[verifier::opaque]
    pub open spec fn on_searched(
        self,
        o: OpeningModel,
        airports: Seq<PositionModel>,
        journal: Seq<EventModel>,
    ) -> (TrackerModel, StepModel) {
        if o.request.provider_enabled && !o.flight.aviationstack_checked && o.flight.callsign is Some {
            let marked = OpeningModel {
                flight: FlightModel { aviationstack_checked: true, ..o.flight },
                ..o
            };
            match self.lookup_step(o.request.identifier, o.flight.callsign, true, o.now) {
                LookupStepModel::Done(lookup) => self.pruned(o.now).on_second_lookup(
                    marked,
                    lookup.metadata,
                    lookup.checked,
                    airports,
                    journal,
                ),
                LookupStepModel::AskProvider { aliases, cache_changed } => (
                    self.pruned(o.now),
                    StepModel {
                        journal,
                        next: NextModel::AskAgain { opening: marked, aliases, cache_changed },
                    },
                ),
            }
        } else {
            self.on_enriched(o, journal)
        }
    }

    /// Metadata has been looked up for a callsign that has only come up with the
    /// aircraft.
    pub open spec fn on_second_lookup(
        self,
        o: OpeningModel,
        m: Option<MetadataModel>,
        cache_hit: bool,
        airports: Seq<PositionModel>,
        journal: Seq<EventModel>,
    ) -> (TrackerModel, StepModel) {
        self.on_enriched(
            OpeningModel { flight: enriched(o.flight, m, airports), ..o },
            journal.push(
                debug_journal::enrichment_event(
                    o.request.identifier,
                    o.flight.callsign,
                    lookup_http(m),
                    m,
                    cache_hit,
                ),
            ),
        )
    }

    /// All is known about the flight but its route.
    #[verifier::opaque]
    pub open spec fn on_enriched(self, o: OpeningModel, journal: Seq<EventModel>) -> (
        TrackerModel,
        StepModel,
    ) {
        if commands::has_duplicate(
            self.flights,
            o.request.identifier,
            o.flight.callsign,
            o.flight.hex,
        ) {
            (
                self,
                StepModel {
                    journal,
                    next: NextModel::Reply {
                        text: already_text(o.request.identifier),
                        save: false,
                    },
                },
            )
        } else {
            self.on_identified(o, false, journal)
        }
    }

    /// The flight can be tracked. A route that it lacks is looked up first.
    #[verifier::opaque]
    pub open spec fn on_identified(
        self,
        o: OpeningModel,
        quiet: bool,
        journal: Seq<EventModel>,
    ) -> (TrackerModel, StepModel) {
        if o.flight.route is None && o.flight.callsign is Some {
            (
                self,
                StepModel {
                    journal,
                    next: NextModel::FetchRoute {
                        opening: o,
                        flies_as: o.flight.callsign->0,
                        quiet,
                    },
                },
            )
        } else {
            self.on_complete(o, journal)
        }
    }

    /// The route has been looked up.
    pub open spec fn on_route(
        self,
        o: OpeningModel,
        callsign: Seq<char>,
        quiet: bool,
        outcome: RouteOutcomeModel,
        airports: Seq<PositionModel>,
    ) -> (TrackerModel, StepModel) {
        let f = with_route(o.flight, outcome, airports);
        self.on_complete(
            OpeningModel { flight: f, ..o },
            if quiet && !(outcome is Found) {
                Seq::empty()
            } else {
                seq![route_event(f, callsign, outcome)]
            },
        )
    }

    /// The flight is tracked from now on.
    #[verifier::opaque]
    pub open spec fn on_complete(self, o: OpeningModel, journal: Seq<EventModel>) -> (
        TrackerModel,
        StepModel,
    ) {
        (
            TrackerModel { flights: self.flights.push(o.flight), ..self },
            StepModel {
                journal: journal.push(debug_journal::track_event(o.flight, o.request.identifier.text())),
                next: NextModel::Reply {
                    text: commands::started_text(o.flight, o.info, o.fallback),
                    save: true,
                },
            },
        )
    }
}

impl FlightModel {
    /// The flight after a first sighting: confirmed or not, its identity and
    /// telemetry are those of the aircraft.
    #[verifier::opaque]
    pub open spec fn first_seen(
        self,
        ac: crate::aviation::types::AircraftModel,
        confirmation: TargetConfirmation,
        now: Timestamp,
    ) -> FlightModel {
        let seen = self.observed(ac, confirmation, confirmation.confirmed());
        if confirmation.confirmed() {
            let stamped = FlightModel {
                last_seen: Some(now),
                last_visible_at: Some(now),
                ..seen
            };
            FlightModel { phase: phase::detected(stamped, ac), ..stamped }
        } else {
            seen
        }
    }
}


/// What the cache remembers lies inside the calendar.
proof fn lemma_remembered_valid(t: TrackerModel, aliases: Seq<Seq<char>>, now: Timestamp)
    requires
        t.valid(),
    ensures
        t.pruned(now).valid(),
        cache::remembered(t.pruned(now).cache, aliases, now) is Some && cache::remembered(
            t.pruned(now).cache,
            aliases,
            now,
        )->0 is Some ==> cache::remembered(t.pruned(now).cache, aliases, now)->0->0.valid(),
{
    let p = |e: CacheEntryModel| !e.expired(now);
    let kept = t.cache.filter(p);
    assert forall|i: int| 0 <= i < kept.len() && (#[trigger] kept[i]).metadata is Some implies kept[i].metadata->0.valid() by {
        t.cache.lemma_filter_contains_rev(p, kept[i]);
        let k = choose|k: int| 0 <= k < t.cache.len() && t.cache[k] == kept[i];
        assert(t.cache[k].metadata is Some);
    }
    cache::law_answers_are_newest(kept, aliases, now);
}

/// A valid answer keeps the tracker inside the calendar.
proof fn lemma_told_valid(
    t: TrackerModel,
    aliases: Seq<Seq<char>>,
    answer: Result<Option<MetadataModel>, ()>,
    now: Timestamp,
)
    requires
        t.valid(),
        answer is Ok && answer->Ok_0 is Some ==> answer->Ok_0->0.valid(),
    ensures
        t.told(aliases, answer, now).valid(),
{
    match answer {
        Ok(m) => {
            let after = cache::upserted(t.cache, aliases, m, now);
            crate::lists::lemma_first_where(
                t.cache,
                |e: CacheEntryModel|
                    e.joins(cache::stored_aliases(aliases, m), cache::stored_day(m)),
            );
            assert forall|i: int|
                0 <= i < after.len() && (#[trigger] after[i]).metadata is Some implies after[i].metadata->0.valid() by {
                if i < t.cache.len() {
                    assert(after[i] == t.cache[i] || after[i].metadata == m);
                }
            }
        },
        Err(_) => {},
    }
}

proof fn lemma_enriched_valid(
    f: FlightModel,
    m: Option<MetadataModel>,
    airports: Seq<PositionModel>,
)
    requires
        f.valid(),
        m is Some ==> m->0.valid(),
    ensures
        enriched(f, m, airports).valid(),
{
    reveal(enriched);
}

fn enrich(
    flight: &mut TrackedFlight,
    m: &Option<AviationstackFlightMetadata>,
    airports: &Airports,
)
    ensures
        final(flight)@ == enriched(old(flight)@, super::opt_metadata(*m), airports@),
{
    reveal(enriched);
    if let Some(m) = m {
        let coords = match &m.arrival_iata {
            Some(iata) => airports.destination(iata.as_str()),
            None => None,
        };
        metadata::apply_aviationstack_metadata(flight, m, coords);
    }
}

fn lookup_outcome(m: &Option<AviationstackFlightMetadata>) -> (r: DebugHttpOutcome)
    ensures
        r@ == lookup_http(super::opt_metadata(*m)),
{
    if m.is_some() {
        DebugHttpOutcome::success("aviationstack", "flight_metadata")
    } else {
        DebugHttpOutcome::miss("aviationstack", "flight_metadata")
    }
}

fn enrichment(
    identifier: &FlightIdentifier,
    callsign: Option<&str>,
    m: &Option<AviationstackFlightMetadata>,
    cache_hit: bool,
) -> (r: FlightTrackerDebugEvent)
    requires
        m is Some ==> m->0@.valid(),
    ensures
        r@ == debug_journal::enrichment_event(
            identifier@,
            slice::opt_str(callsign),
            lookup_http(super::opt_metadata(*m)),
            super::opt_metadata(*m),
            cache_hit,
        ),
{
    FlightTrackerDebugEvent::aviationstack_metadata(
        identifier,
        callsign,
        &lookup_outcome(m),
        m.as_ref(),
        cache_hit,
    )
}

fn requested_flight(
    r: &TrackRequest,
    callsign: &Option<String>,
    checked: bool,
    now: Timestamp,
) -> (f: TrackedFlight)
    ensures
        f@ == FlightModel::requested(r@, slice::opt_text(*callsign), checked, now),
{
    let hex = match &r.identifier {
        FlightIdentifier::Hex(hex) => Some(hex.clone()),
        FlightIdentifier::Callsign(_) => None,
    };
    let hex_source = if r.identifier.is_hex() {
        Some(HexSource::UserInput)
    } else {
        None
    };
    let f = TrackedFlight {
        identifier: r.identifier.duplicate(),
        callsign: slice::clone_opt(callsign),
        alias_callsigns: Vec::new(),
        hex,
        hex_source,
        observed_callsign: None,
        target_confirmation: TargetConfirmation::Pending,
        phase: FlightPhase::Unknown,
        route: None,
        aircraft_type: None,
        altitude_ft: None,
        vertical_rate_fpm: None,
        ground_speed_kts: None,
        lat: None,
        lon: None,
        squawk: None,
        tracked_by: r.requested_by.clone(),
        tracked_at: now,
        last_seen: None,
        last_visible_at: None,
        last_phase_change: None,
        polls_since_change: 0,
        takeoff_at: None,
        aviationstack_checked: checked,
        scheduled_departure_at: None,
        last_adsb_poll_at: None,
        divert_consecutive_polls: 0,
        dest_lat: None,
        dest_lon: None,
    };
    assert(f@.alias_callsigns =~= Seq::<Seq<char>>::empty());
    f
}

fn no_entries() -> (r: Vec<FlightTrackerDebugEvent>)
    ensures
        debug_journal::event_models(r@) == Seq::<EventModel>::empty(),
{
    let r: Vec<FlightTrackerDebugEvent> = Vec::new();
    assert(debug_journal::event_models(r@) =~= Seq::<EventModel>::empty());
    r
}

fn push_entry(journal: &mut Vec<FlightTrackerDebugEvent>, e: FlightTrackerDebugEvent)
    ensures
        debug_journal::event_models(final(journal)@) == debug_journal::event_models(
            old(journal)@,
        ).push(e@),
{
    let ghost m = e@;
    journal.push(e);
    assert(debug_journal::event_models(journal@) =~= debug_journal::event_models(
        old(journal)@,
    ).push(m));
}

fn reply(journal: Vec<FlightTrackerDebugEvent>, text: String, save: bool) -> (r: TrackStep)
    ensures
        r@ == (StepModel {
            journal: debug_journal::event_models(journal@),
            next: NextModel::Reply { text: text@, save },
        }),
{
    TrackStep { journal, next: TrackNext::Reply { text, save } }
}

fn complete(
    state: &mut FlightTrackerState,
    opening: Opening,
    journal: Vec<FlightTrackerDebugEvent>,
) -> (r: TrackStep)
    requires
        old(state)@.valid(),
        opening@.valid(),
    ensures
        (final(state)@, r@) == old(state)@.on_complete(
            opening@,
            debug_journal::event_models(journal@),
        ),
        final(state)@.valid(),
        r@.next.valid(),
{
    reveal(TrackerModel::on_complete);
    let ghost f = opening.flight@;
    let mut journal = journal;
    let text = commands::track_started_response(
        &opening.flight,
        slice::borrow(&opening.info),
        opening.fallback,
    );
    push_entry(
        &mut journal,
        FlightTrackerDebugEvent::track_started(
            &opening.flight,
            opening.request.identifier.as_str(),
        ),
    );
    state.flights.push(opening.flight);
    assert(state@.flights =~= old(state)@.flights.push(f));
    reply(journal, text, true)
}

fn identified(
    state: &mut FlightTrackerState,
    opening: Opening,
    quiet: bool,
    journal: Vec<FlightTrackerDebugEvent>,
) -> (r: TrackStep)
    requires
        old(state)@.valid(),
        opening@.valid(),
    ensures
        (final(state)@, r@) == old(state)@.on_identified(
            opening@,
            quiet,
            debug_journal::event_models(journal@),
        ),
        final(state)@.valid(),
        r@.next.valid(),
{
    reveal(TrackerModel::on_identified);
    if opening.flight.route.is_none() {
        if let Some(cs) = &opening.flight.callsign {
            let callsign = cs.clone();
            return TrackStep {
                journal,
                next: TrackNext::FetchRoute(Routing { opening, callsign, quiet }),
            };
        }
    }
    complete(state, opening, journal)
}

fn enriched_opening(
    state: &mut FlightTrackerState,
    opening: Opening,
    journal: Vec<FlightTrackerDebugEvent>,
) -> (r: TrackStep)
    requires
        old(state)@.valid(),
        opening@.valid(),
    ensures
        (final(state)@, r@) == old(state)@.on_enriched(
            opening@,
            debug_journal::event_models(journal@),
        ),
        final(state)@.valid(),
        r@.next.valid(),
{
    reveal(TrackerModel::on_enriched);
    if commands::duplicate_tracking_exists(
        state,
        &opening.request.identifier,
        slice::borrow(&opening.flight.callsign),
        slice::borrow(&opening.flight.hex),
    ) {
        return reply(journal, already_reply(&opening.request.identifier), false);
    }
    identified(state, opening, false, journal)
}

fn second_lookup(
    state: &mut FlightTrackerState,
    opening: Opening,
    m: &Option<AviationstackFlightMetadata>,
    cache_hit: bool,
    airports: &Airports,
    journal: Vec<FlightTrackerDebugEvent>,
) -> (r: TrackStep)
    requires
        old(state)@.valid(),
        opening@.valid(),
        m is Some ==> m->0@.valid(),
    ensures
        (final(state)@, r@) == old(state)@.on_second_lookup(
            opening@,
            super::opt_metadata(*m),
            cache_hit,
            airports@,
            debug_journal::event_models(journal@),
        ),
        final(state)@.valid(),
        r@.next.valid(),
{
    let mut opening = opening;
    let mut journal = journal;
    push_entry(
        &mut journal,
        enrichment(
            &opening.request.identifier,
            slice::borrow(&opening.flight.callsign),
            m,
            cache_hit,
        ),
    );
    proof {
        lemma_enriched_valid(opening.flight@, super::opt_metadata(*m), airports@);
    }
    enrich(&mut opening.flight, m, airports);
    enriched_opening(state, opening, journal)
}

fn searched(
    state: &mut FlightTrackerState,
    opening: Opening,
    airports: &Airports,
    journal: Vec<FlightTrackerDebugEvent>,
) -> (r: TrackStep)
    requires
        old(state)@.valid(),
        opening@.valid(),
    ensures
        (final(state)@, r@) == old(state)@.on_searched(
            opening@,
            airports@,
            debug_journal::event_models(journal@),
        ),
        final(state)@.valid(),
        r@.next.valid(),
{
    reveal(TrackerModel::on_searched);
    if !opening.request.provider_enabled || opening.flight.aviationstack_checked
        || opening.flight.callsign.is_none() {
        return enriched_opening(state, opening, journal);
    }
    let mut opening = opening;
    opening.flight.aviationstack_checked = true;
    proof {
        lemma_remembered_valid(
            state@,
            cache::query_aliases(opening.request.identifier@, opening.flight@.callsign),
            opening.now,
        );
    }
    let step = cache::begin_lookup(
        state,
        &opening.request.identifier,
        slice::borrow(&opening.flight.callsign),
        true,
        opening.now,
    );
    match step {
        LookupStep::Done(lookup) => second_lookup(
            state,
            opening,
            &lookup.metadata,
            lookup.checked,
            airports,
            journal,
        ),
        LookupStep::AskProvider { aliases, cache_changed } => TrackStep {
            journal,
            next: TrackNext::AskAgain(AskingAgain { opening, aliases, cache_changed }),
        },
    }
}

fn see_first(
    flight: &mut TrackedFlight,
    ac: &NearbyAircraft,
    confirmation: TargetConfirmation,
    now: Timestamp,
)
    requires
        old(flight)@.valid(),
        now.valid(),
    ensures
        final(flight)@ == old(flight)@.first_seen(ac@, confirmation, now),
        final(flight)@.valid(),
{
    reveal(FlightModel::first_seen);
    let confirmed = confirmation.is_target_confirmed();
    assert(flight@.observed(ac@, confirmation, confirmed).valid()) by {
        reveal(FlightModel::observed);
    }
    advance::apply_observed_aircraft(flight, ac, confirmation, confirmed);
    if confirmed {
        flight.last_seen = Some(now);
        flight.last_visible_at = Some(now);
        flight.phase = phase::detect_phase(flight, ac);
    }
}

fn open(
    state: &mut FlightTrackerState,
    request: TrackRequest,
    callsign: Option<String>,
    lookup: AviationstackLookup,
    cache_hit: bool,
    airports: &Airports,
    now: Timestamp,
) -> (r: TrackStep)
    requires
        old(state)@.valid(),
        now.valid(),
        lookup.metadata is Some ==> lookup.metadata->0@.valid(),
    ensures
        (final(state)@, r@) == old(state)@.on_lookup(
            request@,
            slice::opt_text(callsign),
            lookup@,
            cache_hit,
            airports@,
            now,
        ),
        final(state)@.valid(),
        r@.next.valid(),
{
    reveal(TrackerModel::on_lookup);
    let mut journal = no_entries();
    if !request.identifier.is_hex() {
        push_entry(
            &mut journal,
            enrichment(
                &request.identifier,
                slice::borrow(&callsign),
                &lookup.metadata,
                cache_hit,
            ),
        );
    }
    let mut flight = requested_flight(&request, &callsign, lookup.checked, now);
    metadata::seed_flight_aliases(&mut flight);
    proof {
        lemma_enriched_valid(flight@, super::opt_metadata(lookup.metadata), airports@);
    }
    enrich(&mut flight, &lookup.metadata, airports);
    let info = match &lookup.metadata {
        Some(m) => Some(super::format::msg_aviationstack_info(m)),
        None => None,
    };
    let fallback = lookup.checked && lookup.metadata.is_none() && !request.identifier.is_hex();
    let opening = Opening { request, flight, info, fallback, now };
    assert(opening@ == OpeningModel::of(
        request@,
        slice::opt_text(callsign),
        lookup@,
        airports@,
        now,
    ));
    if commands::duplicate_tracking_exists(
        state,
        &opening.request.identifier,
        slice::borrow(&opening.flight.callsign),
        slice::borrow(&opening.flight.hex),
    ) {
        return reply(journal, already_reply(&opening.request.identifier), lookup.cache_changed);
    }
    if commands::should_skip_adsb_for_strict_chill(&opening.flight, now) {
        return searched(state, opening, airports, journal);
    }
    if commands::should_poll_by_hex(&opening.flight) {
        if let Some(hex) = &opening.flight.hex {
            let query = PollQuery::Hex(hex.clone());
            return TrackStep { journal, next: TrackNext::Poll(Polling { opening, query }) };
        }
        return searched(state, opening, airports, journal);
    }
    let candidates = commands::callsign_poll_candidates(&opening.flight);
    assert(slice::texts(candidates@).len() == candidates@.len());
    if candidates.len() == 0 {
        return searched(state, opening, airports, journal);
    }
    TrackStep {
        journal,
        next: TrackNext::Poll(Polling { opening, query: PollQuery::Callsigns(candidates) }),
    }
}

/// A request comes in.
pub fn begin_track(
    state: &mut FlightTrackerState,
    request: TrackRequest,
    airports: &Airports,
    now: Timestamp,
) -> (r: TrackStep)
    requires
        old(state)@.valid(),
        now.valid(),
    ensures
        (final(state)@, r@) == old(state)@.on_request(request@, airports@, now),
        final(state)@.valid(),
        r@.next.valid(),
{
    if state.flights.len() >= MAX_TRACKED_FLIGHTS {
        return reply(no_entries(), full_reply(), false);
    }
    if count_flights_of(&state.flights, request.requested_by.as_str()) >= MAX_FLIGHTS_PER_USER {
        return reply(no_entries(), user_full_reply(), false);
    }
    if commands::duplicate_tracking_exists(state, &request.identifier, None, None) {
        return reply(no_entries(), already_reply(&request.identifier), false);
    }
    if !request.identifier.is_hex() {
        return TrackStep {
            journal: no_entries(),
            next: TrackNext::Resolve(Resolving { request }),
        };
    }
    open(state, request, None, AviationstackLookup::skipped(), false, airports, now)
}

impl Resolving {
    /// The requested callsign has been resolved.
    pub fn resolved(
        self,
        state: &mut FlightTrackerState,
        callsign: String,
        airports: &Airports,
        now: Timestamp,
    ) -> (r: TrackStep)
        requires
            old(state)@.valid(),
            now.valid(),
        ensures
            (final(state)@, r@) == old(state)@.on_resolved(
                self.request@,
                callsign@,
                airports@,
                now,
            ),
            final(state)@.valid(),
            r@.next.valid(),
    {
        let request = self.request;
        if !slice::eq_ignoring_case(callsign.as_str(), request.identifier.as_str())
            && commands::duplicate_tracking_exists(
            state,
            &request.identifier,
            Some(callsign.as_str()),
            None,
        ) {
            return reply(no_entries(), already_reply(&request.identifier), false);
        }
        proof {
            lemma_remembered_valid(
                state@,
                cache::query_aliases(request.identifier@, Some(callsign@)),
                now,
            );
        }
        let step = cache::begin_lookup(
            state,
            &request.identifier,
            Some(callsign.as_str()),
            request.provider_enabled,
            now,
        );
        match step {
            LookupStep::Done(lookup) => {
                let cache_hit = lookup.checked;
                open(state, request, Some(callsign), lookup, cache_hit, airports, now)
            },
            LookupStep::AskProvider { aliases, cache_changed } => TrackStep {
                journal: no_entries(),
                next: TrackNext::AskProvider(
                    Asking { request, callsign: Some(callsign), aliases, cache_changed, now },
                ),
            },
        }
    }
}

impl Asking {
    /// The provider has answered.
    pub fn answered(
        self,
        state: &mut FlightTrackerState,
        answer: Result<Option<AviationstackFlightMetadata>, ()>,
        airports: &Airports,
    ) -> (r: TrackStep)
        requires
            old(state)@.valid(),
            self.now.valid(),
            answer is Ok && answer->Ok_0 is Some ==> answer->Ok_0->0@.valid(),
        ensures
            ({
                let m = cache::provider_model(answer);
                (final(state)@, r@) == old(state)@.told(
                    slice::texts(self.aliases@),
                    m,
                    self.now,
                ).on_lookup(
                    self.request@,
                    slice::opt_text(self.callsign),
                    LookupModel {
                        checked: true,
                        metadata: match m {
                            Ok(m) => m,
                            Err(_) => None,
                        },
                        cache_changed: m is Ok || self.cache_changed,
                        failed: m is Err,
                    },
                    false,
                    airports@,
                    self.now,
                )
            }),
            final(state)@.valid(),
            r@.next.valid(),
    {
        proof {
            lemma_told_valid(
                state@,
                slice::texts(self.aliases@),
                cache::provider_model(answer),
                self.now,
            );
        }
        let lookup = cache::finish_lookup(
            state,
            &self.aliases,
            self.cache_changed,
            answer,
            self.now,
        );
        open(state, self.request, self.callsign, lookup, false, airports, self.now)
    }
}

impl Polling {
    /// The aircraft has been looked for.
    pub fn polled(self, state: &mut FlightTrackerState, outcome: PollOutcome, airports: &Airports) -> (r:
        TrackStep)
        requires
            old(state)@.valid(),
            self.opening@.valid(),
        ensures
            (final(state)@, r@) == old(state)@.on_polled(
                self.opening@,
                self.query@,
                outcome.model(),
                airports@,
            ),
            final(state)@.valid(),
            r@.next.valid(),
    {
        reveal(TrackerModel::on_polled);
        let used_hex = match &self.query {
            PollQuery::Hex(_) => true,
            PollQuery::Callsigns(_) => false,
        };
        let mut opening = self.opening;
        let missed = match &outcome {
            PollOutcome::Miss => true,
            _ => false,
        };
        if missed && !used_hex {
            if let FlightIdentifier::Callsign(input) = &opening.request.identifier {
                if FlightIdentifier::is_valid_icao24_hex(input.as_str()) {
                    let query = PollQuery::Hex(input.clone());
                    return TrackStep {
                        journal: no_entries(),
                        next: TrackNext::Poll(Polling { opening, query }),
                    };
                }
            }
        }
        let now = opening.now;
        let patient = !opening.request.identifier.is_hex() && opening.request.provider_enabled;
        opening.flight.last_adsb_poll_at = Some(now);
        match outcome {
            PollOutcome::Hit(ac) => {
                let used_hex = used_hex && opening.flight.hex.is_some();
                match advance::target_confirmation_for_aircraft(
                    &opening.flight,
                    &ac,
                    used_hex,
                    now,
                ) {
                    Some(confirmation) => {
                        see_first(&mut opening.flight, &ac, confirmation, now);
                        searched(state, opening, airports, no_entries())
                    },
                    None => {
                        if !patient {
                            return reply(
                                no_entries(),
                                no_signal_reply(&opening.request.identifier),
                                false,
                            );
                        }
                        if opening.flight.polls_since_change < u32::MAX {
                            opening.flight.polls_since_change = opening.flight.polls_since_change
                                + 1;
                        }
                        identified(state, opening, true, no_entries())
                    },
                }
            },
            PollOutcome::Miss => {
                if !patient {
                    return reply(
                        no_entries(),
                        no_signal_reply(&opening.request.identifier),
                        false,
                    );
                }
                searched(state, opening, airports, no_entries())
            },
            PollOutcome::Error => {
                if !patient {
                    return reply(
                        no_entries(),
                        "Provider-Problem: ADS-B down | Grund: Anfrage fehlgeschlagen FDM".to_owned(),
                        false,
                    );
                }
                searched(state, opening, airports, no_entries())
            },
            PollOutcome::Timeout => {
                if !patient {
                    return reply(
                        no_entries(),
                        "Provider-Problem: Timeout | Provider: ADS-B | Grund: Anfrage dauerte zu lange FDM".to_owned(),
                        false,
                    );
                }
                searched(state, opening, airports, no_entries())
            },
        }
    }
}

impl AskingAgain {
    /// The provider has answered about the callsign that came up with the
    /// aircraft.
    pub fn answered(
        self,
        state: &mut FlightTrackerState,
        answer: Result<Option<AviationstackFlightMetadata>, ()>,
        airports: &Airports,
    ) -> (r: TrackStep)
        requires
            old(state)@.valid(),
            self.opening@.valid(),
            answer is Ok && answer->Ok_0 is Some ==> answer->Ok_0->0@.valid(),
        ensures
            ({
                let m = cache::provider_model(answer);
                (final(state)@, r@) == old(state)@.told(
                    slice::texts(self.aliases@),
                    m,
                    self.opening@.now,
                ).on_second_lookup(
                    self.opening@,
                    match m {
                        Ok(m) => m,
                        Err(_) => None,
                    },
                    false,
                    airports@,
                    Seq::empty(),
                )
            }),
            final(state)@.valid(),
            r@.next.valid(),
    {
        proof {
            lemma_told_valid(
                state@,
                slice::texts(self.aliases@),
                cache::provider_model(answer),
                self.opening@.now,
            );
        }
        let lookup = cache::finish_lookup(
            state,
            &self.aliases,
            self.cache_changed,
            answer,
            self.opening.now,
        );
        second_lookup(state, self.opening, &lookup.metadata, false, airports, no_entries())
    }
}

impl Routing {
    /// The route has been looked up.
    pub fn answered(
        self,
        state: &mut FlightTrackerState,
        outcome: &RouteOutcome,
        airports: &Airports,
    ) -> (r: TrackStep)
        requires
            old(state)@.valid(),
            self.opening@.valid(),
        ensures
            (final(state)@, r@) == old(state)@.on_route(
                self.opening@,
                self.callsign@,
                self.quiet,
                outcome@,
                airports@,
            ),
            final(state)@.valid(),
            r@.next.valid(),
    {
        let mut opening = self.opening;
        let mut journal = no_entries();
        let entry = take_route(&mut opening.flight, self.callsign.as_str(), outcome, airports);
        let found = match outcome {
            RouteOutcome::Found { .. } => true,
            _ => false,
        };
        if found || !self.quiet {
            push_entry(&mut journal, entry);
        }
        complete(state, opening, journal)
    }
}

} // verus!
