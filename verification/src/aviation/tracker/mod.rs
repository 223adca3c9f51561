//! The flight tracker: what it knows about each tracked flight, and the
//! transitions that observations, metadata and commands cause.

pub mod advance;
pub mod cache;
pub mod commands;
pub mod debug_journal;
pub mod entry_laws;
pub mod flight_laws;
pub mod format;
pub mod format_laws;
pub mod identity_laws;
pub mod journal_files;
pub mod journal_laws;
pub mod laws;
pub mod message_laws;
pub mod metadata;
pub mod phase;
pub mod phase_laws;
pub mod queue;
pub mod request;
pub mod request_laws;
pub mod round;
pub mod schedule;
pub mod state;
pub mod track_laws;

use vstd::prelude::*;

use crate::aviation::codes;
use crate::aviation::types::{AviationstackFlightMetadata, MetadataModel};
use crate::decimal::Decimal;
use crate::text::{chars, slice};
use crate::time::Timestamp;

verus! {

/// Maximum number of simultaneously tracked flights.
pub const MAX_TRACKED_FLIGHTS: usize = 12;

/// Maximum number of flights a single user can track.
pub const MAX_FLIGHTS_PER_USER: usize = 3;

/// Seconds without data before a confirmation decays.
pub const TRACKING_LOST_THRESHOLD: i64 = 300;

/// Seconds without visibility after which a flight is removed.
pub const TRACKING_LOST_REMOVAL: i64 = 1800;

/// Poll intervals in seconds.
pub const POLL_FAST: i64 = 30;

pub const POLL_NORMAL: i64 = 60;

pub const POLL_SLOW: i64 = 120;

/// Timeout of a single live lookup, in seconds.
pub const POLL_TIMEOUT: u64 = 10;

/// Timeout of a route lookup, in seconds.
pub const ROUTE_FETCH_TIMEOUT: u64 = 5;

/// Degrees between the ground track and the bearing to the destination above
/// which a poll counts as anomalous.
pub const DIVERT_BEARING_THRESHOLD: i64 = 90;

/// Consecutive anomalous polls that raise a diversion alert.
pub const DIVERT_CONSECUTIVE_POLLS: u32 = 3;

/// Identifies a flight either by callsign or ICAO24 hex code.
#[derive(Debug, PartialEq, Eq)]
pub enum FlightIdentifier {
    Callsign(String),
    Hex(String),
}

/// What an identifier holds.
pub enum IdentifierModel {
    Callsign(Seq<char>),
    Hex(Seq<char>),
}

impl View for FlightIdentifier {
    type V = IdentifierModel;

    open spec fn view(&self) -> IdentifierModel {
        match self {
            FlightIdentifier::Callsign(s) => IdentifierModel::Callsign(s@),
            FlightIdentifier::Hex(s) => IdentifierModel::Hex(s@),
        }
    }
}

/// Why a text is no flight identifier.
#[derive(Clone, Copy, Debug, PartialEq, Eq, Structural)]
pub enum IdentifierError {
    Empty,
    Invalid,
}

impl IdentifierError {
    pub open spec fn text(self) -> Seq<char> {
        match self {
            IdentifierError::Empty => "Identifier darf nicht leer sein"@,
            IdentifierError::Invalid => "Ungültiges callsign/hex"@,
        }
    }

    /// The message for the user.
    pub fn message(self) -> (r: String)
        ensures
            r@ == self.text(),
    {
        match self {
            IdentifierError::Empty => "Identifier darf nicht leer sein".to_owned(),
            IdentifierError::Invalid => "Ungültiges callsign/hex".to_owned(),
        }
    }
}

impl IdentifierModel {
    /// The callsign or hex value.
    pub open spec fn text(self) -> Seq<char> {
        match self {
            IdentifierModel::Callsign(s) => s,
            IdentifierModel::Hex(s) => s,
        }
    }

    /// Whether the identifier names this callsign or this hex.
    pub open spec fn names(self, callsign: Option<Seq<char>>, hex: Option<Seq<char>>) -> bool {
        match self {
            IdentifierModel::Callsign(s) => callsign is Some && chars::same_ignoring_case(
                callsign->0,
                s,
            ),
            IdentifierModel::Hex(s) => hex is Some && chars::same_ignoring_case(hex->0, s),
        }
    }

    /// The callsign of an identifier that is one.
    pub open spec fn callsign(self) -> Option<Seq<char>> {
        match self {
            IdentifierModel::Callsign(s) => Some(s),
            IdentifierModel::Hex(_) => None,
        }
    }
}

/// What a user input identifies, once it is trimmed and in upper case. Flight
/// numbers with an IATA airline code come before ICAO24 addresses.
pub open spec fn identified(input: Seq<char>) -> Result<IdentifierModel, IdentifierError> {
    if input.len() == 0 {
        Err(IdentifierError::Empty)
    } else if codes::iata_flight_number(input) {
        Ok(IdentifierModel::Callsign(input))
    } else if codes::icao24(input) {
        Ok(IdentifierModel::Hex(input))
    } else if input.len() > 8 || !codes::all_alphanumeric(input) {
        Err(IdentifierError::Invalid)
    } else {
        Ok(IdentifierModel::Callsign(input))
    }
}

/// An identifier is the input itself, and consists of one to eight ASCII letters
/// and digits. So it stays one segment of a URL that it is put into.
pub proof fn law_identifiers_are_plain(input: Seq<char>)
    requires
        identified(input) is Ok,
    ensures
        identified(input)->Ok_0.text() == input,
        1 <= input.len() <= 8,
        codes::all_alphanumeric(input),
{
    if codes::iata_flight_number(input) {
        assert forall|i: int| 0 <= i < input.len() implies chars::ascii_alphanumeric(
            #[trigger] input[i],
        ) by {
            if i >= 2 {
                assert(input[i] == input.skip(2)[i - 2]);
            }
        }
    }
}

/// What is no identifier is empty, longer than eight characters, or not made of
/// ASCII letters and digits alone.
pub proof fn law_only_odd_inputs_are_refused(input: Seq<char>)
    ensures
        identified(input) is Err <==> input.len() == 0 || input.len() > 8
            || !codes::all_alphanumeric(input),
{
    if identified(input) is Ok {
        law_identifiers_are_plain(input);
    }
}

/// The text of an identifier in upper case identifies the same again: it has no
/// padding, and is its own upper case.
pub proof fn law_identifiers_are_read_back(input: Seq<char>)
    requires
        identified(input) is Ok,
        slice::uppercased(input) == input,
    ensures
        identified(slice::uppercased(slice::trimmed(identified(input)->Ok_0.text()))) == identified(
            input,
        ),
{
    law_identifiers_are_plain(input);
    assert(chars::ascii_alphanumeric(input[0]));
    assert(chars::ascii_alphanumeric(input[input.len() - 1]));
    assert(slice::trimmed_start(input) == input);
}

/// A flight number with an IATA airline code means a flight, even where it
/// reads like an address. Any other address means an aircraft, and nothing else
/// does.
pub proof fn law_flight_numbers_come_first(input: Seq<char>)
    ensures
        (identified(input) is Ok && identified(input)->Ok_0 is Hex) <==> (codes::icao24(input)
            && !codes::iata_flight_number(input)),
        codes::iata_flight_number(input) ==> identified(input) == Ok::<
            IdentifierModel,
            IdentifierError,
        >(IdentifierModel::Callsign(input)),
        codes::icao24(input) && !codes::iata_flight_number(input) ==> identified(input) == Ok::<
            IdentifierModel,
            IdentifierError,
        >(IdentifierModel::Hex(input)),
{
}

impl FlightIdentifier {
    /// Parses a user input.
    ///
    /// IATA flight numbers (`LL####`, e.g. `DE1513`) take precedence over the
    /// rule for ICAO24 addresses where both apply: the user means a flight.
    /// Remaining inputs of six hexadecimal digits are ICAO24 addresses.
    /// Everything else is a callsign and must consist of one to eight ASCII
    /// letters and digits, so that an identifier never forges a segment of a
    /// URL that it is put into. The text of an identifier is parsed back to it.
    pub fn parse(input: &str) -> (r: Result<FlightIdentifier, IdentifierError>)
        ensures
            match r {
                Ok(id) => identified(slice::uppercased(slice::trimmed(input@))) == Ok::<
                    IdentifierModel,
                    IdentifierError,
                >(id@),
                Err(e) => identified(slice::uppercased(slice::trimmed(input@))) == Err::<
                    IdentifierModel,
                    IdentifierError,
                >(e),
            },
            r matches Ok(id) ==> identified(slice::uppercased(slice::trimmed(id@.text()))) == Ok::<
                IdentifierModel,
                IdentifierError,
            >(id@),
    {
        let upper = slice::to_upper(slice::trim(input).as_str());
        proof {
            if identified(upper@) is Ok {
                law_identifiers_are_read_back(upper@);
            }
        }
        Self::identify(upper)
    }

    /// What a trimmed input in upper case identifies.
    pub fn identify(input: String) -> (r: Result<FlightIdentifier, IdentifierError>)
        ensures
            match r {
                Ok(id) => identified(input@) == Ok::<IdentifierModel, IdentifierError>(id@),
                Err(e) => identified(input@) == Err::<IdentifierModel, IdentifierError>(e),
            },
    {
        if input.as_str().is_empty() {
            return Err(IdentifierError::Empty);
        }
        if codes::is_iata_flight_number(input.as_str()) {
            return Ok(FlightIdentifier::Callsign(input));
        }
        if Self::is_valid_icao24_hex(input.as_str()) {
            return Ok(FlightIdentifier::Hex(input));
        }
        if slice::chars_of(input.as_str()).len() > 8 || !codes::is_alphanumeric(input.as_str()) {
            return Err(IdentifierError::Invalid);
        }
        Ok(FlightIdentifier::Callsign(input))
    }

    /// Whether the text is an ICAO24 address.
    pub fn is_valid_icao24_hex(value: &str) -> (b: bool)
        ensures
            b == codes::icao24(value@),
    {
        codes::is_icao24(value)
    }

    /// The callsign or hex value.
    pub fn as_str(&self) -> (r: &str)
        ensures
            r@ == self@.text(),
    {
        match self {
            FlightIdentifier::Callsign(s) => s.as_str(),
            FlightIdentifier::Hex(s) => s.as_str(),
        }
    }

    /// Whether the identifier names this callsign or this hex.
    pub fn matches(&self, callsign: Option<&str>, hex: Option<&str>) -> (b: bool)
        ensures
            b == self@.names(slice::opt_str(callsign), slice::opt_str(hex)),
    {
        match self {
            FlightIdentifier::Callsign(s) => match callsign {
                Some(cs) => slice::eq_ignoring_case(cs, s.as_str()),
                None => false,
            },
            FlightIdentifier::Hex(s) => match hex {
                Some(h) => slice::eq_ignoring_case(h, s.as_str()),
                None => false,
            },
        }
    }

    /// Whether two identifiers are the same.
    pub fn same_as(&self, other: &FlightIdentifier) -> (b: bool)
        ensures
            b == (self@ == other@),
    {
        match (self, other) {
            (FlightIdentifier::Callsign(a), FlightIdentifier::Callsign(b)) => slice::same(
                a.as_str(),
                b.as_str(),
            ),
            (FlightIdentifier::Hex(a), FlightIdentifier::Hex(b)) => slice::same(
                a.as_str(),
                b.as_str(),
            ),
            _ => false,
        }
    }

    pub fn is_hex(&self) -> (b: bool)
        ensures
            b == (self@ is Hex),
    {
        match self {
            FlightIdentifier::Callsign(_) => false,
            FlightIdentifier::Hex(_) => true,
        }
    }

    /// A copy of the identifier.
    pub fn duplicate(&self) -> (r: FlightIdentifier)
        ensures
            r@ == self@,
    {
        match self {
            FlightIdentifier::Callsign(s) => FlightIdentifier::Callsign(s.clone()),
            FlightIdentifier::Hex(s) => FlightIdentifier::Hex(s.clone()),
        }
    }
}

/// The callsign of an identifier that is one.
pub fn identifier_callsign(identifier: &FlightIdentifier) -> (r: Option<&str>)
    ensures
        slice::opt_str(r) == identifier@.callsign(),
{
    match identifier {
        FlightIdentifier::Callsign(s) => Some(s.as_str()),
        FlightIdentifier::Hex(_) => None,
    }
}

/// Detected flight phase.
#[derive(Clone, Copy, Debug, PartialEq, Eq, Structural)]
pub enum FlightPhase {
    Unknown,
    Ground,
    Takeoff,
    Climb,
    Cruise,
    Descent,
    Approach,
    Landing,
}

/// Where the stored ICAO24 hex came from.
#[derive(Clone, Copy, Debug, PartialEq, Eq, Structural)]
pub enum HexSource {
    UserInput,
    AviationStack,
    Adsb,
}

/// How confidently the observed aircraft matches the requested flight.
#[derive(Clone, Copy, Debug, PartialEq, Eq, Structural)]
pub enum TargetConfirmation {
    Pending,
    AircraftVisible,
    ConfirmedByCallsign,
    InferredByAssignedHex,
}

impl Default for TargetConfirmation {
    fn default() -> (r: TargetConfirmation)
        ensures
            r == TargetConfirmation::Pending,
    {
        TargetConfirmation::Pending
    }
}

impl FlightPhase {
    pub open spec fn name(self) -> Seq<char> {
        match self {
            FlightPhase::Unknown => "Unknown"@,
            FlightPhase::Ground => "Ground"@,
            FlightPhase::Takeoff => "Takeoff"@,
            FlightPhase::Climb => "Climb"@,
            FlightPhase::Cruise => "Cruise"@,
            FlightPhase::Descent => "Descent"@,
            FlightPhase::Approach => "Approach"@,
            FlightPhase::Landing => "Landing"@,
        }
    }

    /// The name of the phase.
    pub fn to_text(self) -> (r: &'static str)
        ensures
            r@ == self.name(),
    {
        match self {
            FlightPhase::Unknown => "Unknown",
            FlightPhase::Ground => "Ground",
            FlightPhase::Takeoff => "Takeoff",
            FlightPhase::Climb => "Climb",
            FlightPhase::Cruise => "Cruise",
            FlightPhase::Descent => "Descent",
            FlightPhase::Approach => "Approach",
            FlightPhase::Landing => "Landing",
        }
    }
}

impl HexSource {
    pub open spec fn name(self) -> Seq<char> {
        match self {
            HexSource::UserInput => "UserInput"@,
            HexSource::AviationStack => "AviationStack"@,
            HexSource::Adsb => "Adsb"@,
        }
    }

    /// The name of the source.
    pub fn to_text(self) -> (r: &'static str)
        ensures
            r@ == self.name(),
    {
        match self {
            HexSource::UserInput => "UserInput",
            HexSource::AviationStack => "AviationStack",
            HexSource::Adsb => "Adsb",
        }
    }
}

impl TargetConfirmation {
    pub open spec fn name(self) -> Seq<char> {
        match self {
            TargetConfirmation::Pending => "Pending"@,
            TargetConfirmation::AircraftVisible => "AircraftVisible"@,
            TargetConfirmation::ConfirmedByCallsign => "ConfirmedByCallsign"@,
            TargetConfirmation::InferredByAssignedHex => "InferredByAssignedHex"@,
        }
    }

    /// The name of the confirmation.
    pub fn to_text(self) -> (r: &'static str)
        ensures
            r@ == self.name(),
    {
        match self {
            TargetConfirmation::Pending => "Pending",
            TargetConfirmation::AircraftVisible => "AircraftVisible",
            TargetConfirmation::ConfirmedByCallsign => "ConfirmedByCallsign",
            TargetConfirmation::InferredByAssignedHex => "InferredByAssignedHex",
        }
    }
}

impl TargetConfirmation {
    /// The observed aircraft is taken for the requested flight.
    pub open spec fn confirmed(self) -> bool {
        self is ConfirmedByCallsign || self is InferredByAssignedHex
    }

    /// Whether the observed aircraft is taken for the requested flight.
    pub fn is_target_confirmed(self) -> (b: bool)
        ensures
            b == self.confirmed(),
    {
        match self {
            TargetConfirmation::ConfirmedByCallsign => true,
            TargetConfirmation::InferredByAssignedHex => true,
            _ => false,
        }
    }
}

/// State of a single tracked flight.
#[derive(Debug)]
pub struct TrackedFlight {
    pub identifier: FlightIdentifier,
    pub callsign: Option<String>,
    /// Every callsign under which the flight is known.
    pub alias_callsigns: Vec<String>,
    pub hex: Option<String>,
    pub hex_source: Option<HexSource>,
    /// The callsign of the aircraft that was last observed.
    pub observed_callsign: Option<String>,
    pub target_confirmation: TargetConfirmation,
    pub phase: FlightPhase,
    /// Origin and destination.
    pub route: Option<(String, String)>,
    pub aircraft_type: Option<String>,
    pub altitude_ft: Option<i64>,
    pub vertical_rate_fpm: Option<i64>,
    pub ground_speed_kts: Option<Decimal>,
    pub lat: Option<Decimal>,
    pub lon: Option<Decimal>,
    pub squawk: Option<String>,
    pub tracked_by: String,
    pub tracked_at: Timestamp,
    /// The last sighting that confirmed the flight.
    pub last_seen: Option<Timestamp>,
    /// The last poll in which the assigned aircraft was visible. It drives the
    /// removal of lost flights, whereas `last_seen` drives the decay of the
    /// confirmation.
    pub last_visible_at: Option<Timestamp>,
    pub last_phase_change: Option<Timestamp>,
    pub polls_since_change: u32,
    pub takeoff_at: Option<Timestamp>,
    pub aviationstack_checked: bool,
    pub scheduled_departure_at: Option<Timestamp>,
    pub last_adsb_poll_at: Option<Timestamp>,
    pub divert_consecutive_polls: u32,
    pub dest_lat: Option<Decimal>,
    pub dest_lon: Option<Decimal>,
}

/// What a tracked flight holds.
#[verifier::ext_equal]
pub struct FlightModel {
    pub identifier: IdentifierModel,
    pub callsign: Option<Seq<char>>,
    pub alias_callsigns: Seq<Seq<char>>,
    pub hex: Option<Seq<char>>,
    pub hex_source: Option<HexSource>,
    pub observed_callsign: Option<Seq<char>>,
    pub target_confirmation: TargetConfirmation,
    pub phase: FlightPhase,
    pub route: Option<(Seq<char>, Seq<char>)>,
    pub aircraft_type: Option<Seq<char>>,
    pub altitude_ft: Option<i64>,
    pub vertical_rate_fpm: Option<i64>,
    pub ground_speed_kts: Option<Decimal>,
    pub lat: Option<Decimal>,
    pub lon: Option<Decimal>,
    pub squawk: Option<Seq<char>>,
    pub tracked_by: Seq<char>,
    pub tracked_at: Timestamp,
    pub last_seen: Option<Timestamp>,
    pub last_visible_at: Option<Timestamp>,
    pub last_phase_change: Option<Timestamp>,
    pub polls_since_change: u32,
    pub takeoff_at: Option<Timestamp>,
    pub aviationstack_checked: bool,
    pub scheduled_departure_at: Option<Timestamp>,
    pub last_adsb_poll_at: Option<Timestamp>,
    pub divert_consecutive_polls: u32,
    pub dest_lat: Option<Decimal>,
    pub dest_lon: Option<Decimal>,
}

impl View for TrackedFlight {
    type V = FlightModel;

    open spec fn view(&self) -> FlightModel {
        FlightModel {
            identifier: self.identifier@,
            callsign: slice::opt_text(self.callsign),
            alias_callsigns: slice::texts(self.alias_callsigns@),
            hex: slice::opt_text(self.hex),
            hex_source: self.hex_source,
            observed_callsign: slice::opt_text(self.observed_callsign),
            target_confirmation: self.target_confirmation,
            phase: self.phase,
            route: route_model(self.route),
            aircraft_type: slice::opt_text(self.aircraft_type),
            altitude_ft: self.altitude_ft,
            vertical_rate_fpm: self.vertical_rate_fpm,
            ground_speed_kts: self.ground_speed_kts,
            lat: self.lat,
            lon: self.lon,
            squawk: slice::opt_text(self.squawk),
            tracked_by: self.tracked_by@,
            tracked_at: self.tracked_at,
            last_seen: self.last_seen,
            last_visible_at: self.last_visible_at,
            last_phase_change: self.last_phase_change,
            polls_since_change: self.polls_since_change,
            takeoff_at: self.takeoff_at,
            aviationstack_checked: self.aviationstack_checked,
            scheduled_departure_at: self.scheduled_departure_at,
            last_adsb_poll_at: self.last_adsb_poll_at,
            divert_consecutive_polls: self.divert_consecutive_polls,
            dest_lat: self.dest_lat,
            dest_lon: self.dest_lon,
        }
    }
}

/// What an optional route holds.
pub open spec fn route_model(route: Option<(String, String)>) -> Option<(Seq<char>, Seq<char>)> {
    match route {
        Some((origin, dest)) => Some((origin@, dest@)),
        None => None,
    }
}

/// A copy of an optional route.
pub fn clone_route(route: &Option<(String, String)>) -> (r: Option<(String, String)>)
    ensures
        route_model(r) == route_model(*route),
{
    match route {
        Some((origin, dest)) => Some((origin.clone(), dest.clone())),
        None => None,
    }
}

pub open spec fn opt_valid(t: Option<Timestamp>) -> bool {
    t is Some ==> t->0.valid()
}

impl FlightModel {
    /// Every instant of the flight lies inside the calendar.
    pub open spec fn valid(self) -> bool {
        &&& self.tracked_at.valid()
        &&& opt_valid(self.last_seen)
        &&& opt_valid(self.last_visible_at)
        &&& opt_valid(self.last_phase_change)
        &&& opt_valid(self.takeoff_at)
        &&& opt_valid(self.scheduled_departure_at)
        &&& opt_valid(self.last_adsb_poll_at)
    }

    /// The name under which users know the flight.
    pub open spec fn label(self) -> Seq<char> {
        match self.callsign {
            Some(s) => s,
            None => self.identifier.text(),
        }
    }
}

impl TrackedFlight {
    /// The name under which users know the flight.
    pub fn label(&self) -> (r: &str)
        ensures
            r@ == self@.label(),
    {
        match &self.callsign {
            Some(s) => s.as_str(),
            None => self.identifier.as_str(),
        }
    }

    /// A copy of the flight.
    pub fn duplicate(&self) -> (r: TrackedFlight)
        ensures
            r@ == self@,
    {
        TrackedFlight {
            identifier: self.identifier.duplicate(),
            callsign: slice::clone_opt(&self.callsign),
            alias_callsigns: slice::clone_texts(&self.alias_callsigns),
            hex: slice::clone_opt(&self.hex),
            hex_source: self.hex_source,
            observed_callsign: slice::clone_opt(&self.observed_callsign),
            target_confirmation: self.target_confirmation,
            phase: self.phase,
            route: clone_route(&self.route),
            aircraft_type: slice::clone_opt(&self.aircraft_type),
            altitude_ft: self.altitude_ft,
            vertical_rate_fpm: self.vertical_rate_fpm,
            ground_speed_kts: self.ground_speed_kts,
            lat: self.lat,
            lon: self.lon,
            squawk: slice::clone_opt(&self.squawk),
            tracked_by: self.tracked_by.clone(),
            tracked_at: self.tracked_at,
            last_seen: self.last_seen,
            last_visible_at: self.last_visible_at,
            last_phase_change: self.last_phase_change,
            polls_since_change: self.polls_since_change,
            takeoff_at: self.takeoff_at,
            aviationstack_checked: self.aviationstack_checked,
            scheduled_departure_at: self.scheduled_departure_at,
            last_adsb_poll_at: self.last_adsb_poll_at,
            divert_consecutive_polls: self.divert_consecutive_polls,
            dest_lat: self.dest_lat,
            dest_lon: self.dest_lon,
        }
    }
}

/// A metadata lookup result that `!track` and `!info` share.
#[derive(Debug)]
pub struct CachedFlightInfo {
    pub aliases: Vec<String>,
    pub flight_date: Option<String>,
    pub metadata: Option<AviationstackFlightMetadata>,
    pub cached_at: Timestamp,
    pub expires_at: Timestamp,
}

/// What a cached lookup result holds.
pub struct CacheEntryModel {
    pub aliases: Seq<Seq<char>>,
    pub flight_date: Option<Seq<char>>,
    pub metadata: Option<MetadataModel>,
    pub cached_at: Timestamp,
    pub expires_at: Timestamp,
}

/// What an optional metadata record holds.
pub open spec fn opt_metadata(m: Option<AviationstackFlightMetadata>) -> Option<MetadataModel> {
    match m {
        Some(m) => Some(m@),
        None => None,
    }
}

impl View for CachedFlightInfo {
    type V = CacheEntryModel;

    open spec fn view(&self) -> CacheEntryModel {
        CacheEntryModel {
            aliases: slice::texts(self.aliases@),
            flight_date: slice::opt_text(self.flight_date),
            metadata: opt_metadata(self.metadata),
            cached_at: self.cached_at,
            expires_at: self.expires_at,
        }
    }
}

/// State of all tracked flights.
#[derive(Debug)]
pub struct FlightTrackerState {
    pub flights: Vec<TrackedFlight>,
    pub flight_info_cache: Vec<CachedFlightInfo>,
}

/// What the tracked flights hold.
pub open spec fn flight_models(v: Seq<TrackedFlight>) -> Seq<FlightModel> {
    v.map_values(|f: TrackedFlight| f@)
}

/// What the cached lookup results hold.
pub open spec fn cache_models(v: Seq<CachedFlightInfo>) -> Seq<CacheEntryModel> {
    v.map_values(|e: CachedFlightInfo| e@)
}

/// What the tracker holds.
#[verifier::ext_equal]
pub struct TrackerModel {
    pub flights: Seq<FlightModel>,
    pub cache: Seq<CacheEntryModel>,
}

impl View for FlightTrackerState {
    type V = TrackerModel;

    open spec fn view(&self) -> TrackerModel {
        TrackerModel {
            flights: flight_models(self.flights@),
            cache: cache_models(self.flight_info_cache@),
        }
    }
}

} // verus!
