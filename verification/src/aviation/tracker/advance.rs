//! The transition of a tracked flight on one observation.
//!
//! `advance_flight` changes a flight in place and returns what is to be done
//! about it: messages, journal entries, lookups and removal. It depends on the
//! flight, the observation and the time alone.

use vstd::prelude::*;

use super::debug_journal;
use super::debug_journal::{
    AdsbPollDebugInput, DiversionDebugInput, EventModel, FlightTrackerDebugEvent, PollInputModel,
};
use super::metadata;
use super::phase;
use super::schedule;
use super::{
    FlightIdentifier, FlightModel, FlightPhase, HexSource, TargetConfirmation, TrackedFlight,
    DIVERT_BEARING_THRESHOLD, DIVERT_CONSECUTIVE_POLLS, TRACKING_LOST_REMOVAL,
    TRACKING_LOST_THRESHOLD,
};
use crate::aviation::types::{AircraftModel, NearbyAircraft};
use crate::decimal::Decimal;
use crate::text::{chars, slice};
use crate::time;
use crate::time::Timestamp;

verus! {

/// What a poll came back with.
#[derive(Debug)]
pub enum PollOutcome {
    Hit(NearbyAircraft),
    Miss,
    Error,
    Timeout,
}

/// The course that an aircraft takes: from its last position to the present
/// one, and from there to the destination. Angles are in degrees.
#[derive(Clone, Copy, Debug, PartialEq, Eq, Structural)]
pub struct Bearings {
    pub ground_track: Decimal,
    pub bearing_to_dest: Decimal,
}

impl Bearings {
    /// Both angles lie on the compass.
    pub open spec fn valid(self) -> bool {
        0 <= self.ground_track.micros <= 360_000_000 && 0 <= self.bearing_to_dest.micros
            <= 360_000_000
    }

    /// The angle between the two, at most half a turn.
    pub open spec fn deviation(self) -> Decimal {
        let d = self.ground_track.micros - self.bearing_to_dest.micros;
        let a = if d < 0 {
            -d
        } else {
            d
        };
        Decimal {
            micros: (if a > 180_000_000 {
                360_000_000 - a
            } else {
                a
            }) as i64,
        }
    }
}

/// One poll of a flight.
#[derive(Debug)]
pub struct Observation {
    /// The aircraft was looked up by its address, not by a callsign.
    pub used_hex: bool,
    /// The callsigns that were tried.
    pub aliases: Vec<String>,
    pub outcome: PollOutcome,
    /// The course, where the last and the present position and the destination
    /// are known.
    pub bearings: Option<Bearings>,
}

/// What a poll holds.
pub struct ObservationModel {
    pub used_hex: bool,
    pub aliases: Seq<Seq<char>>,
    pub outcome: OutcomeModel,
    pub bearings: Option<Bearings>,
}

pub enum OutcomeModel {
    Hit(AircraftModel),
    Miss,
    Error,
    Timeout,
}

impl PollOutcome {
    pub open spec fn model(self) -> OutcomeModel {
        match self {
            PollOutcome::Hit(ac) => OutcomeModel::Hit(ac@),
            PollOutcome::Miss => OutcomeModel::Miss,
            PollOutcome::Error => OutcomeModel::Error,
            PollOutcome::Timeout => OutcomeModel::Timeout,
        }
    }
}

impl View for Observation {
    type V = ObservationModel;

    open spec fn view(&self) -> ObservationModel {
        ObservationModel {
            used_hex: self.used_hex,
            aliases: slice::texts(self.aliases@),
            outcome: self.outcome.model(),
            bearings: self.bearings,
        }
    }
}

impl ObservationModel {
    pub open spec fn valid(self) -> bool {
        self.bearings is Some ==> self.bearings->0.valid()
    }
}

/// A message to be sent.
#[derive(Debug, PartialEq, Eq)]
pub enum Emit {
    AdsbVisible,
    Takeoff,
    Cruise,
    Descent,
    Approach,
    Landing { takeoff_at: Option<Timestamp> },
    SquawkEmergency { code: String, meaning: String },
    PossibleDivert,
    TrackingLost,
    PendingExpired,
}

pub enum EmitModel {
    AdsbVisible,
    Takeoff,
    Cruise,
    Descent,
    Approach,
    Landing { takeoff_at: Option<Timestamp> },
    SquawkEmergency { code: Seq<char>, meaning: Seq<char> },
    PossibleDivert,
    TrackingLost,
    PendingExpired,
}

impl View for Emit {
    type V = EmitModel;

    open spec fn view(&self) -> EmitModel {
        match self {
            Emit::AdsbVisible => EmitModel::AdsbVisible,
            Emit::Takeoff => EmitModel::Takeoff,
            Emit::Cruise => EmitModel::Cruise,
            Emit::Descent => EmitModel::Descent,
            Emit::Approach => EmitModel::Approach,
            Emit::Landing { takeoff_at } => EmitModel::Landing { takeoff_at: *takeoff_at },
            Emit::SquawkEmergency { code, meaning } => EmitModel::SquawkEmergency {
                code: code@,
                meaning: meaning@,
            },
            Emit::PossibleDivert => EmitModel::PossibleDivert,
            Emit::TrackingLost => EmitModel::TrackingLost,
            Emit::PendingExpired => EmitModel::PendingExpired,
        }
    }
}

#[derive(Clone, Copy, Debug, PartialEq, Eq, Structural)]
pub enum RemovalReason {
    TrackingLost { secs: i64 },
}

/// A lookup to be made.
#[derive(Debug, PartialEq, Eq)]
pub enum Followup {
    FetchRoute { callsign: String },
}

impl View for Followup {
    type V = Seq<char>;

    /// The callsign whose route is to be looked up.
    open spec fn view(&self) -> Seq<char> {
        match self {
            Followup::FetchRoute { callsign } => callsign@,
        }
    }
}

/// What is to be done after a transition.
#[derive(Debug)]
pub struct FlightUpdate {
    pub emits: Vec<Emit>,
    pub debug: Vec<FlightTrackerDebugEvent>,
    pub followups: Vec<Followup>,
    pub removal: Option<RemovalReason>,
}

/// What is to be done after a transition.
#[verifier::ext_equal]
pub struct UpdateModel {
    pub emits: Seq<EmitModel>,
    pub debug: Seq<EventModel>,
    /// The callsigns whose routes are to be looked up.
    pub followups: Seq<Seq<char>>,
    pub removal: Option<RemovalReason>,
}

pub open spec fn emit_models(v: Seq<Emit>) -> Seq<EmitModel> {
    v.map_values(|e: Emit| e@)
}

pub open spec fn followup_models(v: Seq<Followup>) -> Seq<Seq<char>> {
    v.map_values(|f: Followup| f@)
}

impl View for FlightUpdate {
    type V = UpdateModel;

    open spec fn view(&self) -> UpdateModel {
        UpdateModel {
            emits: emit_models(self.emits@),
            debug: debug_journal::event_models(self.debug@),
            followups: followup_models(self.followups@),
            removal: self.removal,
        }
    }
}

impl UpdateModel {
    /// Nothing is to be done.
    pub open spec fn nothing() -> UpdateModel {
        UpdateModel {
            emits: Seq::empty(),
            debug: Seq::empty(),
            followups: Seq::empty(),
            removal: None,
        }
    }

    pub open spec fn emit(self, e: EmitModel) -> UpdateModel {
        UpdateModel { emits: self.emits.push(e), ..self }
    }

    pub open spec fn record(self, e: EventModel) -> UpdateModel {
        UpdateModel { debug: self.debug.push(e), ..self }
    }

    pub open spec fn follow(self, callsign: Seq<char>) -> UpdateModel {
        UpdateModel { followups: self.followups.push(callsign), ..self }
    }

    pub open spec fn emit_if(self, cond: bool, e: EmitModel) -> UpdateModel {
        if cond {
            self.emit(e)
        } else {
            self
        }
    }

    pub open spec fn record_if(self, cond: bool, e: EventModel) -> UpdateModel {
        if cond {
            self.record(e)
        } else {
            self
        }
    }
}

impl FlightUpdate {
    /// Nothing is to be done.
    pub fn nothing() -> (r: FlightUpdate)
        ensures
            r@ == UpdateModel::nothing(),
    {
        let r = FlightUpdate {
            emits: Vec::new(),
            debug: Vec::new(),
            followups: Vec::new(),
            removal: None,
        };
        assert(r@ =~= UpdateModel::nothing());
        r
    }

    pub fn emit(&mut self, e: Emit)
        ensures
            final(self)@ == old(self)@.emit(e@),
    {
        let ghost m = e@;
        self.emits.push(e);
        assert(self@ =~= old(self)@.emit(m));
    }

    pub fn record(&mut self, e: FlightTrackerDebugEvent)
        ensures
            final(self)@ == old(self)@.record(e@),
    {
        let ghost m = e@;
        self.debug.push(e);
        assert(self@ =~= old(self)@.record(m));
    }

    pub fn follow(&mut self, callsign: String)
        ensures
            final(self)@ == old(self)@.follow(callsign@),
    {
        let ghost m = callsign@;
        self.followups.push(Followup::FetchRoute { callsign });
        assert(self@ =~= old(self)@.follow(m));
    }
}

/// The message of an emission.
pub open spec fn emit_text(f: FlightModel, e: EmitModel, now: Timestamp) -> Seq<char> {
    match e {
        EmitModel::AdsbVisible => f.prefix() + " ist jetzt im ADS-B sichtbar"@,
        EmitModel::Takeoff => f.prefix() + " ist gestartet! \u{2708}"@,
        EmitModel::Cruise => f.prefix() + " cruist auf "@ + super::format::altitude_text(f.altitude_ft),
        EmitModel::Descent => f.prefix() + " hat Descent eingeleitet"@,
        EmitModel::Approach => f.prefix() + " ist im Approach"@,
        EmitModel::Landing { takeoff_at } => super::format::landing_text(f, takeoff_at, now),
        EmitModel::SquawkEmergency { code, meaning } => super::format::squawk_text(f, code, meaning),
        EmitModel::PossibleDivert => "\u{26a0} "@ + f.prefix() + " scheint zu diverten!"@,
        EmitModel::TrackingLost => "Tracking lost: "@ + f.prefix()
            + " | Status: automatisch entfernt | Grund: kein ADS-B Signal mehr"@,
        EmitModel::PendingExpired => super::format::pending_expired_text(f),
    }
}

/// An emission can be rendered: a takeoff that it carries lies inside the
/// calendar.
pub open spec fn emit_valid(e: EmitModel) -> bool {
    e is Landing && e->takeoff_at is Some ==> e->takeoff_at->0.valid()
}

/// The message of an emission.
pub fn format_emit(flight: &TrackedFlight, emit: &Emit, now: Timestamp) -> (r: String)
    requires
        emit_valid(emit@),
        now.valid(),
    ensures
        r@ == emit_text(flight@, emit@, now),
{
    match emit {
        Emit::AdsbVisible => super::format::msg_adsb_visible(flight),
        Emit::Takeoff => super::format::msg_takeoff(flight),
        Emit::Cruise => super::format::msg_cruise(flight),
        Emit::Descent => super::format::msg_descent(flight),
        Emit::Approach => super::format::msg_approach(flight),
        Emit::Landing { takeoff_at } => super::format::msg_landing(flight, *takeoff_at, now),
        Emit::SquawkEmergency { code, meaning } => super::format::msg_squawk_emergency(
            flight,
            code.as_str(),
            meaning.as_str(),
        ),
        Emit::PossibleDivert => super::format::msg_possible_divert(flight),
        Emit::TrackingLost => super::format::msg_tracking_lost(flight),
        Emit::PendingExpired => super::format::msg_pending_expired(flight),
    }
}

/// Gives the flight a route that was looked up for it. `dest_coords` are the
/// coordinates of the destination, where they are known.
pub fn apply_route(
    flight: &mut TrackedFlight,
    origin: &str,
    dest: &str,
    dest_coords: Option<(Decimal, Decimal)>,
)
    ensures
        final(flight)@ == metadata::routed(old(flight)@, origin@, dest@, dest_coords),
{
    metadata::set_route_from_iata(flight, origin, dest, dest_coords);
}

impl FlightModel {
    /// The flight goes by this callsign.
    pub open spec fn goes_by(self, callsign: Seq<char>) -> bool {
        ||| self.callsign is Some && chars::same_ignoring_case(self.callsign->0, callsign)
        ||| metadata::knows(self.alias_callsigns, callsign)
        ||| self.identifier is Callsign && chars::same_ignoring_case(
            self.identifier->Callsign_0,
            callsign,
        )
    }

    /// The flight goes by this callsign, or its aircraft was observed under it.
    pub open spec fn associated_with(self, callsign: Seq<char>) -> bool {
        self.goes_by(callsign) || (self.observed_callsign is Some && chars::same_ignoring_case(
            self.observed_callsign->0,
            callsign,
        ))
    }

    /// An aircraft at the assigned address may be taken for the flight without
    /// a callsign: always where the address was asked for, else from half an
    /// hour before until three hours after the scheduled departure.
    pub open spec fn inferable_by_hex(self, now: Timestamp) -> bool {
        self.identifier is Hex || (self.scheduled_departure_at is Some
            && self.scheduled_departure_at->0.spec_plus(-1800).ticks <= now.ticks
            <= self.scheduled_departure_at->0.spec_plus(10_800).ticks)
    }

    /// The whole seconds since the last confirmed sighting.
    pub open spec fn last_seen_age(self, now: Timestamp) -> Option<i64> {
        match self.last_seen {
            Some(t) => {
                let age = time::whole_seconds(now.spec_since(t));
                Some(
                    (if age < 0 {
                        0
                    } else {
                        age
                    }) as i64,
                )
            },
            None => None,
        }
    }

    /// How an observed aircraft confirms the flight, if it does.
    pub open spec fn confirmation_by(
        self,
        ac: AircraftModel,
        used_hex: bool,
        now: Timestamp,
    ) -> Option<TargetConfirmation> {
        if ac.callsign() is Some && self.goes_by(ac.callsign()->0) {
            Some(TargetConfirmation::ConfirmedByCallsign)
        } else if !used_hex {
            None
        } else if (self.identifier is Hex || ac.callsign() is None) && self.inferable_by_hex(now) {
            Some(TargetConfirmation::InferredByAssignedHex)
        } else {
            Some(TargetConfirmation::AircraftVisible)
        }
    }

    /// A confirmation from the last five minutes outlasts a sighting at the
    /// assigned address that does not confirm the flight itself.
    pub open spec fn keeps_confirmation(
        self,
        confirmation: TargetConfirmation,
        used_hex: bool,
        now: Timestamp,
    ) -> bool {
        used_hex && self.target_confirmation.confirmed() && confirmation is AircraftVisible
            && self.last_seen is Some && now.spec_since(self.last_seen->0)
            <= TRACKING_LOST_THRESHOLD * 1_000_000_000
    }

    /// The callsign that an observation newly gives the flight.
    pub open spec fn newly_resolved(
        self,
        ac: AircraftModel,
        confirmation: TargetConfirmation,
    ) -> Option<Seq<char>> {
        if (confirmation is ConfirmedByCallsign || self.identifier is Hex) && self.callsign is None {
            ac.callsign()
        } else {
            None
        }
    }

    /// The flight with the identity and the telemetry of an observed aircraft.
    #[verifier::opaque]
    pub open spec fn observed(
        self,
        ac: AircraftModel,
        confirmation: TargetConfirmation,
        direct: bool,
    ) -> FlightModel {
        self.identified_by(ac, confirmation).addressed_by(ac, direct).measured_by(ac)
    }

    /// The flight with the confirmation and the callsign of an observed aircraft.
    pub open spec fn identified_by(
        self,
        ac: AircraftModel,
        confirmation: TargetConfirmation,
    ) -> FlightModel {
        let resolved = self.newly_resolved(ac, confirmation);
        FlightModel {
            target_confirmation: confirmation,
            observed_callsign: ac.callsign(),
            callsign: if resolved is Some {
                resolved
            } else {
                self.callsign
            },
            alias_callsigns: metadata::with_opt_alias(self.alias_callsigns, resolved),
            ..self
        }
    }

    /// The flight with the address of an observed aircraft, where it fits.
    pub open spec fn addressed_by(self, ac: AircraftModel, direct: bool) -> FlightModel {
        match ac.hex {
            Some(hex) => metadata::with_hex(self, hex, HexSource::Adsb, direct),
            None => self,
        }
    }

    /// The flight with the telemetry of an observed aircraft.
    pub open spec fn measured_by(self, ac: AircraftModel) -> FlightModel {
        FlightModel {
            aircraft_type: if self.aircraft_type is Some {
                self.aircraft_type
            } else {
                ac.t
            },
            altitude_ft: ac.altitude(),
            vertical_rate_fpm: ac.rate(),
            ground_speed_kts: ac.gs,
            lat: ac.lat,
            lon: ac.lon,
            squawk: ac.squawk,
            ..self
        }
    }
}

/// Whether the flight goes by this callsign.
pub fn flight_matches_callsign(flight: &TrackedFlight, actual: &str) -> (b: bool)
    ensures
        b == flight@.goes_by(actual@),
{
    if let Some(cs) = &flight.callsign {
        if slice::eq_ignoring_case(cs.as_str(), actual) {
            return true;
        }
    }
    if metadata::known(&flight.alias_callsigns, actual) {
        return true;
    }
    match &flight.identifier {
        FlightIdentifier::Callsign(cs) => slice::eq_ignoring_case(cs.as_str(), actual),
        FlightIdentifier::Hex(_) => false,
    }
}

/// Whether the flight goes by this callsign, or its aircraft was observed under
/// it.
pub fn candidate_callsign_matches_flight(flight: &TrackedFlight, candidate: &str) -> (b: bool)
    ensures
        b == flight@.associated_with(candidate@),
{
    if flight_matches_callsign(flight, candidate) {
        return true;
    }
    match &flight.observed_callsign {
        Some(cs) => slice::eq_ignoring_case(cs.as_str(), candidate),
        None => false,
    }
}

fn inferred_by_hex_window(flight: &TrackedFlight, now: Timestamp) -> (b: bool)
    requires
        flight@.valid(),
        now.valid(),
    ensures
        b == flight@.inferable_by_hex(now),
{
    if flight.identifier.is_hex() {
        return true;
    }
    match flight.scheduled_departure_at {
        Some(t) => t.plus_secs(-1800).ticks <= now.ticks && now.ticks <= t.plus_secs(10_800).ticks,
        None => false,
    }
}

/// The whole seconds since the last confirmed sighting.
pub fn last_seen_age_secs(flight: &TrackedFlight, now: Timestamp) -> (r: Option<i64>)
    requires
        flight@.valid(),
        now.valid(),
    ensures
        r == flight@.last_seen_age(now),
{
    match flight.last_seen {
        Some(t) => {
            let age: i64 = now.secs_since(t);
            Some(
                if age < 0 {
                    0
                } else {
                    age
                },
            )
        },
        None => None,
    }
}

fn should_keep_prior_confirmation(
    flight: &TrackedFlight,
    confirmation: TargetConfirmation,
    used_hex: bool,
    now: Timestamp,
) -> (b: bool)
    requires
        flight@.valid(),
        now.valid(),
    ensures
        b == flight@.keeps_confirmation(confirmation, used_hex, now),
{
    if !used_hex || !flight.target_confirmation.is_target_confirmed() || confirmation
        != TargetConfirmation::AircraftVisible {
        return false;
    }
    match flight.last_seen {
        Some(t) => now.nanos_since(t) <= TRACKING_LOST_THRESHOLD as i128 * 1_000_000_000,
        None => false,
    }
}

/// How an observed aircraft confirms the flight, if it does.
pub fn target_confirmation_for_aircraft(
    flight: &TrackedFlight,
    ac: &NearbyAircraft,
    used_hex: bool,
    now: Timestamp,
) -> (r: Option<TargetConfirmation>)
    requires
        flight@.valid(),
        now.valid(),
    ensures
        r == flight@.confirmation_by(ac@, used_hex, now),
{
    let callsign = ac.aircraft_callsign();
    if let Some(cs) = &callsign {
        if flight_matches_callsign(flight, cs.as_str()) {
            return Some(TargetConfirmation::ConfirmedByCallsign);
        }
    }
    if !used_hex {
        return None;
    }
    if (flight.identifier.is_hex() || callsign.is_none()) && inferred_by_hex_window(flight, now) {
        Some(TargetConfirmation::InferredByAssignedHex)
    } else {
        Some(TargetConfirmation::AircraftVisible)
    }
}

fn identify(flight: &mut TrackedFlight, ac: &NearbyAircraft, confirmation: TargetConfirmation) -> (r:
    Option<String>)
    ensures
        final(flight)@ == old(flight)@.identified_by(ac@, confirmation),
        slice::opt_text(r) == old(flight)@.newly_resolved(ac@, confirmation),
{
    flight.target_confirmation = confirmation;
    flight.observed_callsign = ac.aircraft_callsign();
    if (confirmation == TargetConfirmation::ConfirmedByCallsign || flight.identifier.is_hex())
        && flight.callsign.is_none() {
        if let Some(cs) = ac.aircraft_callsign() {
            flight.callsign = Some(cs.clone());
            metadata::push_alias(&mut flight.alias_callsigns, cs.as_str());
            return Some(cs);
        }
    }
    None
}

fn address(flight: &mut TrackedFlight, ac: &NearbyAircraft, direct: bool)
    ensures
        final(flight)@ == old(flight)@.addressed_by(ac@, direct),
{
    if let Some(hex) = &ac.hex {
        metadata::set_hex_if_consistent(flight, hex.as_str(), HexSource::Adsb, direct);
    }
}

fn measure(flight: &mut TrackedFlight, ac: &NearbyAircraft)
    ensures
        final(flight)@ == old(flight)@.measured_by(ac@),
{
    if flight.aircraft_type.is_none() {
        flight.aircraft_type = slice::clone_opt(&ac.t);
    }
    flight.altitude_ft = phase::altitude_ft(ac);
    flight.vertical_rate_fpm = phase::vertical_rate(ac);
    flight.ground_speed_kts = ac.gs;
    flight.lat = ac.lat;
    flight.lon = ac.lon;
    flight.squawk = slice::clone_opt(&ac.squawk);
}

/// Gives the flight the identity and the telemetry of an aircraft that confirms
/// it, and returns the callsign that it newly has from there.
///
/// `last_seen`, `last_visible_at` and the phase are left to the caller.
pub fn apply_observed_aircraft(
    flight: &mut TrackedFlight,
    ac: &NearbyAircraft,
    confirmation: TargetConfirmation,
    direct_target_confirmed: bool,
) -> (r: Option<String>)
    ensures
        final(flight)@ == old(flight)@.observed(ac@, confirmation, direct_target_confirmed),
        slice::opt_text(r) == old(flight)@.newly_resolved(ac@, confirmation),
{
    reveal(FlightModel::observed);
    let resolved = identify(flight, ac, confirmation);
    address(flight, ac, direct_target_confirmed);
    measure(flight, ac);
    resolved
}

/// What a sighting means for the flight.
#[derive(Clone, Copy, Debug, PartialEq, Eq, Structural)]
pub struct Sighting {
    /// The confirmation that the flight has from now on.
    pub confirmation: TargetConfirmation,
    /// The aircraft itself confirms the flight.
    pub direct: bool,
    /// An earlier confirmation outlasts the sighting.
    pub sticky: bool,
    /// The telemetry counts for the phase of the flight.
    pub sample: bool,
    /// The flight is confirmed and was not before.
    pub became_confirmed: bool,
    /// The flight had not been seen before.
    pub was_pending: bool,
}

impl FlightModel {
    /// What the sighting of an aircraft means for the flight.
    pub open spec fn sighting(
        self,
        ac: AircraftModel,
        raw: TargetConfirmation,
        used_hex: bool,
        now: Timestamp,
    ) -> Sighting {
        let sticky = self.keeps_confirmation(raw, used_hex, now);
        Sighting {
            confirmation: if sticky {
                self.target_confirmation
            } else {
                raw
            },
            direct: raw.confirmed(),
            sticky,
            sample: raw.confirmed() || (sticky && ac.callsign() is None),
            became_confirmed: raw.confirmed() && !self.target_confirmation.confirmed(),
            was_pending: self.pending(),
        }
    }

    /// The flight after a poll that found nothing. A flight that has been
    /// visible is lost once that is long enough ago.
    pub open spec fn missed(self, obs: ObservationModel, now: Timestamp) -> (
        FlightModel,
        UpdateModel,
    ) {
        let update = UpdateModel::nothing().record(
            debug_journal::poll_event(
                self,
                obs.poll_input("miss"@, None, None, self.last_seen_age(now)),
            ),
        );
        match self.last_visible_at {
            None => (
                FlightModel { polls_since_change: one_more(self.polls_since_change), ..self },
                update,
            ),
            Some(t) => {
                let gone = now.spec_since(t);
                let secs = time::whole_seconds(gone) as i64;
                if gone >= TRACKING_LOST_REMOVAL * 1_000_000_000 {
                    (
                        self,
                        UpdateModel {
                            removal: Some(RemovalReason::TrackingLost { secs }),
                            ..update.record(
                                debug_journal::removal_event(self, "tracking_lost"@, Some(secs)),
                            ).emit(EmitModel::TrackingLost)
                        },
                    )
                } else {
                    (self, update)
                }
            },
        }
    }

    /// The flight with the time of a sighting.
    pub open spec fn seen(self, s: Sighting, now: Timestamp) -> FlightModel {
        FlightModel {
            last_visible_at: Some(now),
            last_seen: if s.direct {
                Some(now)
            } else {
                self.last_seen
            },
            ..self
        }
    }

    /// The flight at its first confirmation: what was known of its phase is
    /// void.
    pub open spec fn restarted(self, s: Sighting) -> FlightModel {
        if s.became_confirmed && s.was_pending {
            FlightModel {
                phase: FlightPhase::Unknown,
                last_phase_change: None,
                polls_since_change: 0,
                ..self
            }
        } else {
            self
        }
    }

    /// The flight in a new phase. After the landing it is on the ground, and
    /// its takeoff is void.
    pub open spec fn in_phase(self, new: FlightPhase, now: Timestamp) -> FlightModel {
        FlightModel {
            phase: if new is Landing {
                FlightPhase::Ground
            } else {
                new
            },
            last_phase_change: Some(now),
            polls_since_change: 0,
            takeoff_at: if new is Landing {
                None
            } else if self.phase is Ground && phase::airborne(new) && self.takeoff_at is None {
                Some(now)
            } else {
                self.takeoff_at
            },
            ..self
        }
    }

    /// The message about a new phase.
    pub open spec fn phase_emit(self, new: FlightPhase) -> Option<EmitModel> {
        match new {
            FlightPhase::Takeoff => Some(EmitModel::Takeoff),
            FlightPhase::Cruise => Some(EmitModel::Cruise),
            FlightPhase::Descent => Some(EmitModel::Descent),
            FlightPhase::Approach => Some(EmitModel::Approach),
            FlightPhase::Landing => Some(EmitModel::Landing { takeoff_at: self.takeoff_at }),
            _ => None,
        }
    }

    /// The flight and the update once the phase has been looked at.
    #[verifier::opaque]
    pub open spec fn phased(
        self,
        update: UpdateModel,
        ac: AircraftModel,
        s: Sighting,
        now: Timestamp,
    ) -> (FlightModel, UpdateModel) {
        let new = phase::detected(self, ac);
        if !s.sample {
            (self, update)
        } else if new == self.phase {
            (
                FlightModel { polls_since_change: one_more(self.polls_since_change), ..self },
                update,
            )
        } else {
            let after = self.in_phase(new, now);
            let told = match self.phase_emit(new) {
                Some(e) => update.emit(e),
                None => update,
            };
            (
                after,
                told.record(
                    debug_journal::phase_event(
                        after,
                        self.phase.name(),
                        new.name(),
                        new is Landing,
                    ),
                ),
            )
        }
    }

    /// What is recorded of the course of a flight that is coming down.
    pub open spec fn diversion_input(
        self,
        prev_lat: Decimal,
        prev_lon: Decimal,
        bearings: Bearings,
    ) -> DiversionDebugInput {
        let anomalous = bearings.deviation().micros > DIVERT_BEARING_THRESHOLD * 1_000_000;
        let after = phase::divert_count(self.divert_consecutive_polls, anomalous);
        DiversionDebugInput {
            previous_lat: prev_lat,
            previous_lon: prev_lon,
            current_lat: self.lat->0,
            current_lon: self.lon->0,
            destination_lat: self.dest_lat->0,
            destination_lon: self.dest_lon->0,
            ground_track: bearings.ground_track,
            bearing_to_dest: bearings.bearing_to_dest,
            diff: bearings.deviation(),
            threshold: Decimal { micros: 90_000_000 },
            anomalous,
            counter_before: self.divert_consecutive_polls,
            counter_after: after,
            alert_emitted: after >= DIVERT_CONSECUTIVE_POLLS,
        }
    }

    /// The flight and the update once the course has been looked at. Only a
    /// flight that is coming down can divert.
    #[verifier::opaque]
    pub open spec fn diverted(
        self,
        update: UpdateModel,
        prev_lat: Option<Decimal>,
        prev_lon: Option<Decimal>,
        bearings: Option<Bearings>,
        s: Sighting,
    ) -> (FlightModel, UpdateModel) {
        if !s.sample || !(self.phase is Descent || self.phase is Approach) {
            (FlightModel { divert_consecutive_polls: 0, ..self }, update)
        } else if prev_lat is Some && prev_lon is Some && self.lat is Some && self.lon is Some
            && self.dest_lat is Some && self.dest_lon is Some && bearings is Some {
            let input = self.diversion_input(prev_lat->0, prev_lon->0, bearings->0);
            let after = FlightModel { divert_consecutive_polls: input.counter_after, ..self };
            (
                after,
                update.record(debug_journal::diversion_event(after, input)).emit_if(
                    input.alert_emitted,
                    EmitModel::PossibleDivert,
                ),
            )
        } else {
            (self, update)
        }
    }

    /// The flight and the update after the sighting of an aircraft.
    pub open spec fn sighted(
        self,
        ac: AircraftModel,
        raw: TargetConfirmation,
        obs: ObservationModel,
        now: Timestamp,
    ) -> (FlightModel, UpdateModel) {
        let s = self.sighting(ac, raw, obs.used_hex, now);
        let polled = UpdateModel::nothing().record(
            debug_journal::poll_event(
                self,
                obs.poll_input("hit"@, Some(ac), Some(s), self.last_seen_age(now)),
            ),
        );
        let seen = self.seen(s, now);
        let observed = seen.observed(ac, s.confirmation, s.direct);
        let told = first_contact(
            squawked(identity_update(polled, seen, observed, ac, s), self.squawk, ac, s),
            s,
        );
        let (after, update) = observed.restarted(s).phased(told, ac, s, now);
        after.diverted(update, self.lat, self.lon, obs.bearings, s)
    }

    /// The flight and the update after one poll.
    pub open spec fn advanced(self, obs: ObservationModel, now: Timestamp) -> (
        FlightModel,
        UpdateModel,
    ) {
        let polled = FlightModel { last_adsb_poll_at: Some(now), ..self };
        match obs.outcome {
            OutcomeModel::Miss => polled.missed(obs, now),
            OutcomeModel::Error => (
                polled,
                UpdateModel::nothing().record(
                    debug_journal::poll_event(
                        polled,
                        obs.poll_input("error"@, None, None, polled.last_seen_age(now)),
                    ),
                ),
            ),
            OutcomeModel::Timeout => (
                polled,
                UpdateModel::nothing().record(
                    debug_journal::poll_event(
                        polled,
                        obs.poll_input("timeout"@, None, None, polled.last_seen_age(now)),
                    ),
                ),
            ),
            OutcomeModel::Hit(ac) => match polled.confirmation_by(ac, obs.used_hex, now) {
                Some(raw) => polled.sighted(ac, raw, obs, now),
                None => (polled, UpdateModel::nothing()),
            },
        }
    }
}

/// The number of polls after one more.
pub open spec fn one_more(n: u32) -> u32 {
    if n == u32::MAX {
        n
    } else {
        (n + 1) as u32
    }
}

impl ObservationModel {
    /// What is recorded of the poll.
    pub open spec fn poll_input(
        self,
        outcome: Seq<char>,
        aircraft: Option<AircraftModel>,
        s: Option<Sighting>,
        age: Option<i64>,
    ) -> PollInputModel {
        PollInputModel {
            lookup_mode: if self.used_hex {
                "hex"@
            } else {
                "callsign"@
            },
            aliases: self.aliases,
            outcome,
            aircraft,
            direct_target_confirmed: match s {
                Some(s) => Some(s.direct),
                None => None,
            },
            sticky_confirmation: match s {
                Some(s) => Some(s.sticky),
                None => None,
            },
            phase_sample_eligible: match s {
                Some(s) => Some(s.sample),
                None => None,
            },
            last_seen_age_secs: age,
        }
    }
}

pub open spec fn source_name(source: Option<HexSource>) -> Option<Seq<char>> {
    match source {
        Some(s) => Some(s.name()),
        None => None,
    }
}

/// What follows from a changed identity: the route of a new callsign is looked
/// up, and changes of the confirmation and of the address are recorded.
#[verifier::opaque]
pub open spec fn identity_update(
    update: UpdateModel,
    before: FlightModel,
    after: FlightModel,
    ac: AircraftModel,
    s: Sighting,
) -> UpdateModel {
    let resolved = before.newly_resolved(ac, s.confirmation);
    let followed = if resolved is Some && after.route is None {
        update.follow(resolved->0)
    } else {
        update
    };
    followed.record_if(
        before.target_confirmation != after.target_confirmation,
        debug_journal::confirmation_event(
            after,
            before.target_confirmation,
            after.target_confirmation,
        ),
    ).record_if(
        before.hex != after.hex || before.hex_source != after.hex_source,
        debug_journal::hex_event(
            after,
            before.hex,
            after.hex,
            source_name(before.hex_source),
            source_name(after.hex_source),
        ),
    )
}

/// The update with the warning about an emergency squawk that is new.
#[verifier::opaque]
pub open spec fn squawked(
    update: UpdateModel,
    before: Option<Seq<char>>,
    ac: AircraftModel,
    s: Sighting,
) -> UpdateModel {
    if ac.squawk is Some && s.sample && before != ac.squawk && phase::emergency(
        ac.squawk->0,
    ) is Some {
        update.emit(
            EmitModel::SquawkEmergency {
                code: ac.squawk->0,
                meaning: phase::emergency(ac.squawk->0)->0,
            },
        )
    } else {
        update
    }
}

/// The update with the message about a first confirmation.
pub open spec fn first_contact(update: UpdateModel, s: Sighting) -> UpdateModel {
    update.emit_if(s.became_confirmed, EmitModel::AdsbVisible)
}

fn same_opt(a: &Option<String>, b: &Option<String>) -> (r: bool)
    ensures
        r == (slice::opt_text(*a) == slice::opt_text(*b)),
{
    match (a, b) {
        (Some(x), Some(y)) => slice::same(x.as_str(), y.as_str()),
        (None, None) => true,
        _ => false,
    }
}

fn source_text(source: Option<HexSource>) -> (r: Option<&'static str>)
    ensures
        slice::opt_str(r) == source_name(source),
{
    match source {
        Some(s) => Some(s.to_text()),
        None => None,
    }
}

fn record_poll(
    update: &mut FlightUpdate,
    flight: &TrackedFlight,
    obs: &Observation,
    outcome: &str,
    aircraft: Option<&NearbyAircraft>,
    s: Option<Sighting>,
    now: Timestamp,
)
    requires
        flight@.valid(),
        now.valid(),
    ensures
        final(update)@ == old(update)@.record(
            debug_journal::poll_event(
                flight@,
                obs@.poll_input(
                    outcome@,
                    match aircraft {
                        Some(ac) => Some(ac@),
                        None => None,
                    },
                    s,
                    flight@.last_seen_age(now),
                ),
            ),
        ),
{
    let input = AdsbPollDebugInput {
        lookup_mode: if obs.used_hex {
            "hex"
        } else {
            "callsign"
        },
        aliases: &obs.aliases,
        outcome,
        aircraft,
        direct_target_confirmed: match s {
            Some(s) => Some(s.direct),
            None => None,
        },
        sticky_confirmation: match s {
            Some(s) => Some(s.sticky),
            None => None,
        },
        phase_sample_eligible: match s {
            Some(s) => Some(s.sample),
            None => None,
        },
        last_seen_age_secs: last_seen_age_secs(flight, now),
    };
    update.record(FlightTrackerDebugEvent::adsb_poll_result(flight, &input));
}

fn miss(flight: &mut TrackedFlight, obs: &Observation, now: Timestamp) -> (update: FlightUpdate)
    requires
        old(flight)@.valid(),
        now.valid(),
    ensures
        (final(flight)@, update@) == old(flight)@.missed(obs@, now),
{
    let mut update = FlightUpdate::nothing();
    record_poll(&mut update, flight, obs, "miss", None, None, now);
    match flight.last_visible_at {
        None => {
            flight.polls_since_change = flight.polls_since_change.saturating_add(1);
        },
        Some(t) => {
            if now.nanos_since(t) >= TRACKING_LOST_REMOVAL as i128 * 1_000_000_000 {
                let secs: i64 = now.secs_since(t);
                update.record(
                    FlightTrackerDebugEvent::tracking_removal(flight, "tracking_lost", Some(secs)),
                );
                update.emit(Emit::TrackingLost);
                update.removal = Some(RemovalReason::TrackingLost { secs });
            }
        },
    }
    update
}

fn tell_identity(
    update: &mut FlightUpdate,
    resolved: Option<String>,
    before: &TrackedFlight,
    after: &TrackedFlight,
    ac: &NearbyAircraft,
    s: Sighting,
)
    requires
        after@.valid(),
        slice::opt_text(resolved) == before@.newly_resolved(ac@, s.confirmation),
    ensures
        final(update)@ == identity_update(old(update)@, before@, after@, ac@, s),
{
    reveal(identity_update);
    if let Some(callsign) = resolved {
        if after.route.is_none() {
            update.follow(callsign);
        }
    }
    if before.target_confirmation != after.target_confirmation {
        update.record(
            FlightTrackerDebugEvent::target_confirmation_transition(
                after,
                before.target_confirmation.to_text(),
                after.target_confirmation.to_text(),
            ),
        );
    }
    if !same_opt(&before.hex, &after.hex) || before.hex_source != after.hex_source {
        update.record(
            FlightTrackerDebugEvent::hex_assignment(
                after,
                slice::borrow(&before.hex),
                slice::borrow(&after.hex),
                source_text(before.hex_source),
                source_text(after.hex_source),
            ),
        );
    }
}

fn tell_squawk(
    update: &mut FlightUpdate,
    before: &Option<String>,
    ac: &NearbyAircraft,
    s: Sighting,
)
    ensures
        final(update)@ == squawked(old(update)@, slice::opt_text(*before), ac@, s),
{
    reveal(squawked);
    if let Some(code) = &ac.squawk {
        if s.sample && !same_opt(before, &ac.squawk) {
            if let Some(meaning) = phase::emergency_squawk_meaning(code.as_str()) {
                update.emit(
                    Emit::SquawkEmergency { code: code.clone(), meaning: meaning.to_owned() },
                );
            }
        }
    }
}

fn change_phase(
    flight: &mut TrackedFlight,
    update: &mut FlightUpdate,
    new: FlightPhase,
    now: Timestamp,
)
    requires
        old(flight)@.valid(),
        now.valid(),
    ensures
        final(flight)@ == old(flight)@.in_phase(new, now),
        final(update)@ == match old(flight)@.phase_emit(new) {
            Some(e) => old(update)@.emit(e),
            None => old(update)@,
        }.record(
            debug_journal::phase_event(
                old(flight)@.in_phase(new, now),
                old(flight)@.phase.name(),
                new.name(),
                new is Landing,
            ),
        ),
{
    let before = flight.phase;
    match new {
        FlightPhase::Takeoff => update.emit(Emit::Takeoff),
        FlightPhase::Cruise => update.emit(Emit::Cruise),
        FlightPhase::Descent => update.emit(Emit::Descent),
        FlightPhase::Approach => update.emit(Emit::Approach),
        FlightPhase::Landing => update.emit(Emit::Landing { takeoff_at: flight.takeoff_at }),
        _ => {},
    }
    if new == FlightPhase::Landing {
        flight.phase = FlightPhase::Ground;
        flight.takeoff_at = None;
    } else {
        flight.phase = new;
        if before == FlightPhase::Ground && phase::is_airborne_phase(new)
            && flight.takeoff_at.is_none() {
            flight.takeoff_at = Some(now);
        }
    }
    flight.last_phase_change = Some(now);
    flight.polls_since_change = 0;
    update.record(
        FlightTrackerDebugEvent::phase_transition(
            flight,
            before.to_text(),
            new.to_text(),
            new == FlightPhase::Landing,
        ),
    );
}

fn look_at_phase(
    flight: &mut TrackedFlight,
    update: &mut FlightUpdate,
    ac: &NearbyAircraft,
    s: Sighting,
    now: Timestamp,
)
    requires
        old(flight)@.valid(),
        now.valid(),
    ensures
        (final(flight)@, final(update)@) == old(flight)@.phased(old(update)@, ac@, s, now),
{
    reveal(FlightModel::phased);
    if s.sample {
        let new = phase::detect_phase(flight, ac);
        if new == flight.phase {
            flight.polls_since_change = flight.polls_since_change.saturating_add(1);
        } else {
            change_phase(flight, update, new, now);
        }
    }
}

fn look_at_course(
    flight: &mut TrackedFlight,
    update: &mut FlightUpdate,
    prev_lat: Option<Decimal>,
    prev_lon: Option<Decimal>,
    bearings: Option<Bearings>,
    s: Sighting,
)
    requires
        old(flight)@.valid(),
        bearings is Some ==> bearings->0.valid(),
    ensures
        (final(flight)@, final(update)@) == old(flight)@.diverted(
            old(update)@,
            prev_lat,
            prev_lon,
            bearings,
            s,
        ),
{
    reveal(FlightModel::diverted);
    if !s.sample || !(flight.phase == FlightPhase::Descent || flight.phase
        == FlightPhase::Approach) {
        flight.divert_consecutive_polls = 0;
        return;
    }
    if let (Some(p_lat), Some(p_lon), Some(lat), Some(lon)) = (
        prev_lat,
        prev_lon,
        flight.lat,
        flight.lon,
    ) {
        if let (Some(dest_lat), Some(dest_lon), Some(bearings)) = (
            flight.dest_lat,
            flight.dest_lon,
            bearings,
        ) {
            let d: i64 = bearings.ground_track.micros - bearings.bearing_to_dest.micros;
            let a: i64 = if d < 0 {
                -d
            } else {
                d
            };
            let diff = Decimal {
                micros: if a > 180_000_000 {
                    360_000_000 - a
                } else {
                    a
                },
            };
            let anomalous = diff.micros > DIVERT_BEARING_THRESHOLD * 1_000_000;
            let counter_before: u32 = flight.divert_consecutive_polls;
            let alert_emitted = phase::update_divert_counter(
                &mut flight.divert_consecutive_polls,
                anomalous,
            );
            let input = DiversionDebugInput {
                previous_lat: p_lat,
                previous_lon: p_lon,
                current_lat: lat,
                current_lon: lon,
                destination_lat: dest_lat,
                destination_lon: dest_lon,
                ground_track: bearings.ground_track,
                bearing_to_dest: bearings.bearing_to_dest,
                diff,
                threshold: Decimal { micros: 90_000_000 },
                anomalous,
                counter_before,
                counter_after: flight.divert_consecutive_polls,
                alert_emitted,
            };
            update.record(FlightTrackerDebugEvent::diversion_decision(flight, input));
            if alert_emitted {
                update.emit(Emit::PossibleDivert);
            }
        }
    }
}

fn see(flight: &mut TrackedFlight, s: Sighting, now: Timestamp)
    requires
        old(flight)@.valid(),
        now.valid(),
    ensures
        final(flight)@ == old(flight)@.seen(s, now),
        final(flight)@.valid(),
{
    flight.last_visible_at = Some(now);
    if s.direct {
        flight.last_seen = Some(now);
    }
}

fn restart(flight: &mut TrackedFlight, s: Sighting)
    ensures
        final(flight)@ == old(flight)@.restarted(s),
{
    if s.became_confirmed && s.was_pending {
        flight.phase = FlightPhase::Unknown;
        flight.last_phase_change = None;
        flight.polls_since_change = 0;
    }
}

fn assess(
    flight: &TrackedFlight,
    ac: &NearbyAircraft,
    raw: TargetConfirmation,
    used_hex: bool,
    now: Timestamp,
) -> (s: Sighting)
    requires
        flight@.valid(),
        now.valid(),
    ensures
        s == flight@.sighting(ac@, raw, used_hex, now),
{
    let direct = raw.is_target_confirmed();
    let sticky = should_keep_prior_confirmation(flight, raw, used_hex, now);
    Sighting {
        confirmation: if sticky {
            flight.target_confirmation
        } else {
            raw
        },
        direct,
        sticky,
        sample: direct || (sticky && ac.aircraft_callsign().is_none()),
        became_confirmed: direct && !flight.target_confirmation.is_target_confirmed(),
        was_pending: schedule::is_pending_adsb(flight),
    }
}

/// Observing an aircraft and restarting leave the instants of a flight as they
/// are.
pub proof fn lemma_observed_valid(
    f: FlightModel,
    ac: AircraftModel,
    confirmation: TargetConfirmation,
    direct: bool,
    s: Sighting,
)
    requires
        f.valid(),
    ensures
        f.observed(ac, confirmation, direct).valid(),
        f.observed(ac, confirmation, direct).restarted(s).valid(),
{
    reveal(FlightModel::observed);
}

/// Looking at the phase stays inside the calendar.
proof fn lemma_phased_valid(
    f: FlightModel,
    update: UpdateModel,
    ac: AircraftModel,
    s: Sighting,
    now: Timestamp,
)
    requires
        f.valid(),
        now.valid(),
    ensures
        f.phased(update, ac, s, now).0.valid(),
{
    reveal(FlightModel::phased);
}

fn hit(
    flight: &mut TrackedFlight,
    ac: &NearbyAircraft,
    raw: TargetConfirmation,
    obs: &Observation,
    now: Timestamp,
) -> (update: FlightUpdate)
    requires
        old(flight)@.valid(),
        obs@.valid(),
        now.valid(),
    ensures
        (final(flight)@, update@) == old(flight)@.sighted(ac@, raw, obs@, now),
{
    let s = assess(flight, ac, raw, obs.used_hex, now);
    let mut update = FlightUpdate::nothing();
    record_poll(&mut update, flight, obs, "hit", Some(ac), Some(s), now);
    let prev_lat = flight.lat;
    let prev_lon = flight.lon;
    see(flight, s, now);
    let before = flight.duplicate();
    let resolved = apply_observed_aircraft(flight, ac, s.confirmation, s.direct);
    proof {
        lemma_observed_valid(before@, ac@, s.confirmation, s.direct, s);
    }
    tell_identity(&mut update, resolved, &before, flight, ac, s);
    tell_squawk(&mut update, &before.squawk, ac, s);
    if s.became_confirmed {
        update.emit(Emit::AdsbVisible);
    }
    restart(flight, s);
    let ghost restarted = flight@;
    let ghost told = update@;
    look_at_phase(flight, &mut update, ac, s, now);
    proof {
        lemma_phased_valid(restarted, told, ac@, s, now);
    }
    look_at_course(flight, &mut update, prev_lat, prev_lon, obs.bearings, s);
    update
}

/// Takes one poll into account. Changes the flight in place and returns what is
/// to be done.
pub fn advance_flight(flight: &mut TrackedFlight, obs: &Observation, now: Timestamp) -> (update:
    FlightUpdate)
    requires
        old(flight)@.valid(),
        obs@.valid(),
        now.valid(),
    ensures
        (final(flight)@, update@) == old(flight)@.advanced(obs@, now),
{
    flight.last_adsb_poll_at = Some(now);
    match &obs.outcome {
        PollOutcome::Miss => miss(flight, obs, now),
        PollOutcome::Error => {
            let mut update = FlightUpdate::nothing();
            record_poll(&mut update, flight, obs, "error", None, None, now);
            update
        },
        PollOutcome::Timeout => {
            let mut update = FlightUpdate::nothing();
            record_poll(&mut update, flight, obs, "timeout", None, None, now);
            update
        },
        PollOutcome::Hit(ac) => match target_confirmation_for_aircraft(
            flight,
            ac,
            obs.used_hex,
            now,
        ) {
            Some(raw) => hit(flight, ac, raw, obs, now),
            None => FlightUpdate::nothing(),
        },
    }
}

} // verus!
