//! What holds of every transition of a tracked flight.

use vstd::prelude::*;

use super::advance;
use super::advance::{
    Bearings, EmitModel, ObservationModel, OutcomeModel, Sighting, UpdateModel,
};
use super::debug_journal;
use super::phase;
use super::{
    FlightModel, TargetConfirmation, DIVERT_CONSECUTIVE_POLLS, TRACKING_LOST_REMOVAL,
    TRACKING_LOST_THRESHOLD,
};
use crate::aviation::types::AircraftModel;
use crate::decimal::Decimal;
use crate::text::chars;
use crate::time::Timestamp;

verus! {

/// What looking at the phase can do.
proof fn lemma_phased(
    f: FlightModel,
    update: UpdateModel,
    ac: AircraftModel,
    s: Sighting,
    now: Timestamp,
)
    ensures
        ({
            let (g, v) = f.phased(update, ac, s, now);
            &&& g == (FlightModel {
                phase: g.phase,
                last_phase_change: g.last_phase_change,
                polls_since_change: g.polls_since_change,
                takeoff_at: g.takeoff_at,
                ..f
            })
            &&& v.removal == update.removal
            &&& v.followups == update.followups
            &&& v.emits == update.emits || (v.emits == update.emits.push(v.emits.last()) && (
            v.emits.last() is Takeoff || v.emits.last() is Cruise || v.emits.last() is Descent
                || v.emits.last() is Approach || (v.emits.last() == (EmitModel::Landing {
                takeoff_at: f.takeoff_at,
            }) && g.phase is Ground && g.takeoff_at is None)))
            &&& g.takeoff_at == f.takeoff_at || g.takeoff_at is None || (g.takeoff_at == Some(now)
                && f.takeoff_at is None && f.phase is Ground && phase::airborne(g.phase))
            &&& f.valid() && now.valid() ==> g.valid()
        }),
{
    reveal(FlightModel::phased);
}

/// What looking at the course can do.
proof fn lemma_diverted(
    f: FlightModel,
    update: UpdateModel,
    prev_lat: Option<Decimal>,
    prev_lon: Option<Decimal>,
    bearings: Option<Bearings>,
    s: Sighting,
)
    ensures
        ({
            let (g, v) = f.diverted(update, prev_lat, prev_lon, bearings, s);
            &&& g == (FlightModel { divert_consecutive_polls: g.divert_consecutive_polls, ..f })
            &&& v.removal == update.removal
            &&& v.followups == update.followups
            &&& v.emits == update.emits || (v.emits == update.emits.push(EmitModel::PossibleDivert)
                && g.divert_consecutive_polls >= DIVERT_CONSECUTIVE_POLLS
                && f.divert_consecutive_polls + 1 >= DIVERT_CONSECUTIVE_POLLS && (f.phase is Descent
                || f.phase is Approach))
        }),
{
    reveal(FlightModel::diverted);
}

/// What an observation can do to a flight.
proof fn lemma_observed(
    f: FlightModel,
    ac: AircraftModel,
    confirmation: TargetConfirmation,
    direct: bool,
)
    ensures
        ({
            let g = f.observed(ac, confirmation, direct);
            &&& g == (FlightModel {
                target_confirmation: confirmation,
                observed_callsign: g.observed_callsign,
                callsign: g.callsign,
                alias_callsigns: g.alias_callsigns,
                hex: g.hex,
                hex_source: g.hex_source,
                aircraft_type: g.aircraft_type,
                altitude_ft: g.altitude_ft,
                vertical_rate_fpm: g.vertical_rate_fpm,
                ground_speed_kts: g.ground_speed_kts,
                lat: g.lat,
                lon: g.lon,
                squawk: g.squawk,
                ..f
            })
            &&& keeps_names(f, g)
        }),
{
    reveal(FlightModel::observed);
    let named = f.identified_by(ac, confirmation);
    let addressed = named.addressed_by(ac, direct);
    assert(f.alias_callsigns.is_prefix_of(named.alias_callsigns));
    assert(addressed.alias_callsigns == named.alias_callsigns);
}

/// What is told of a changed identity and of an emergency squawk.
proof fn lemma_told(
    update: UpdateModel,
    before: FlightModel,
    after: FlightModel,
    squawk: Option<Seq<char>>,
    ac: AircraftModel,
    s: Sighting,
)
    ensures
        ({
            let v = advance::squawked(
                advance::identity_update(update, before, after, ac, s),
                squawk,
                ac,
                s,
            );
            &&& v.removal == update.removal
            &&& v.emits == update.emits || (v.emits == update.emits.push(v.emits.last())
                && v.emits.last() is SquawkEmergency)
        }),
{
    reveal(advance::identity_update);
    reveal(advance::squawked);
}

/// The flight `b` has the names of the flight `a`: a callsign and an address of
/// `a` are not replaced, and no alias is dropped.
pub open spec fn keeps_names(a: FlightModel, b: FlightModel) -> bool {
    &&& a.callsign is Some ==> b.callsign == a.callsign
    &&& a.hex is Some ==> b.hex is Some && chars::same_ignoring_case(a.hex->0, b.hex->0)
    &&& a.alias_callsigns.is_prefix_of(b.alias_callsigns)
}

/// The messages of an update can be rendered.
pub open spec fn emits_valid(update: UpdateModel) -> bool {
    forall|i: int| 0 <= i < update.emits.len() ==> advance::emit_valid(#[trigger] update.emits[i])
}

/// What a sighting can do. The messages are about an emergency, about the first
/// contact, about the phase and about the course, in this order and each at
/// most once.
proof fn lemma_sighted(
    f: FlightModel,
    ac: AircraftModel,
    raw: TargetConfirmation,
    obs: ObservationModel,
    now: Timestamp,
)
    ensures
        ({
            let (g, v) = f.sighted(ac, raw, obs, now);
            let s = f.sighting(ac, raw, obs.used_hex, now);
            &&& g.identifier == f.identifier
            &&& g.tracked_by == f.tracked_by
            &&& g.tracked_at == f.tracked_at
            &&& g.aviationstack_checked == f.aviationstack_checked
            &&& g.scheduled_departure_at == f.scheduled_departure_at
            &&& g.route == f.route
            &&& g.dest_lat == f.dest_lat
            &&& g.dest_lon == f.dest_lon
            &&& g.last_visible_at == Some(now)
            &&& g.last_seen == if raw.confirmed() {
                Some(now)
            } else {
                f.last_seen
            }
            &&& g.target_confirmation == s.confirmation
            &&& keeps_names(f, g)
            &&& v.removal is None
            &&& !v.emits.contains(EmitModel::TrackingLost)
            &&& forall|i: int|
                0 <= i < v.emits.len() && #[trigger] v.emits[i] is Landing ==> v.emits[i]->takeoff_at
                    == f.takeoff_at && g.phase is Ground && g.takeoff_at is None
            &&& g.takeoff_at == f.takeoff_at || g.takeoff_at is None || (g.takeoff_at == Some(now)
                && f.takeoff_at is None && f.phase is Ground && phase::airborne(g.phase))
            &&& v.emits.contains(EmitModel::PossibleDivert) ==> f.divert_consecutive_polls + 1
                >= DIVERT_CONSECUTIVE_POLLS && g.divert_consecutive_polls
                >= DIVERT_CONSECUTIVE_POLLS && (g.phase is Descent || g.phase is Approach)
            &&& f.valid() && now.valid() ==> g.valid() && emits_valid(v)
        }),
{
    let s = f.sighting(ac, raw, obs.used_hex, now);
    let reported = UpdateModel::nothing().record(
        debug_journal::poll_event(
            f,
            obs.poll_input("hit"@, Some(ac), Some(s), f.last_seen_age(now)),
        ),
    );
    let seen = f.seen(s, now);
    let observed = seen.observed(ac, s.confirmation, s.direct);
    lemma_observed(seen, ac, s.confirmation, s.direct);
    let squawked = advance::squawked(
        advance::identity_update(reported, seen, observed, ac, s),
        f.squawk,
        ac,
        s,
    );
    lemma_told(reported, seen, observed, f.squawk, ac, s);
    let told = advance::first_contact(squawked, s);
    let restarted = observed.restarted(s);
    lemma_phased(restarted, told, ac, s, now);
    let (after, update) = restarted.phased(told, ac, s, now);
    lemma_diverted(after, update, f.lat, f.lon, obs.bearings, s);
    let (g, v) = after.diverted(update, f.lat, f.lon, obs.bearings, s);
    assert(f.sighted(ac, raw, obs, now) == (g, v));
    assert(keeps_names(f, seen));
    assert(forall|i: int|
        0 <= i < told.emits.len() ==> #[trigger] told.emits[i] is SquawkEmergency
            || told.emits[i] is AdsbVisible);
    assert(forall|i: int|
        0 <= i < v.emits.len() ==> v.emits[i] == EmitModel::PossibleDivert || (#[trigger] v.emits[i]
            == update.emits[i] && i < update.emits.len()));
}

/// The confirmation that a flight has after a sighting.
pub proof fn lemma_sighted_confirmation(
    f: FlightModel,
    ac: AircraftModel,
    raw: TargetConfirmation,
    obs: ObservationModel,
    now: Timestamp,
)
    ensures
        f.sighted(ac, raw, obs, now).0.target_confirmation == f.sighting(
            ac,
            raw,
            obs.used_hex,
            now,
        ).confirmation,
{
    lemma_sighted(f, ac, raw, obs, now);
}

/// A poll that failed or timed out leaves everything but the time of the poll
/// as it was, and only a journal entry follows from it.
pub proof fn law_failed_poll_changes_nothing(f: FlightModel, obs: ObservationModel, now: Timestamp)
    requires
        obs.outcome is Error || obs.outcome is Timeout,
    ensures
        f.advanced(obs, now).0 == (FlightModel { last_adsb_poll_at: Some(now), ..f }),
        f.advanced(obs, now).1.emits.len() == 0,
        f.advanced(obs, now).1.followups.len() == 0,
        f.advanced(obs, now).1.removal is None,
        f.advanced(obs, now).1.debug.len() == 1,
{
}

/// An aircraft that does not confirm the flight leaves everything but the time
/// of the poll as it was, and nothing follows from it.
pub proof fn law_stranger_changes_nothing(
    f: FlightModel,
    ac: AircraftModel,
    obs: ObservationModel,
    now: Timestamp,
)
    requires
        obs.outcome == OutcomeModel::Hit(ac),
        !obs.used_hex,
        ac.callsign() is None || !f.goes_by(ac.callsign()->0),
    ensures
        f.advanced(obs, now).0 == (FlightModel { last_adsb_poll_at: Some(now), ..f }),
        f.advanced(obs, now).1 == UpdateModel::nothing(),
{
}

/// A flight is removed exactly when a poll finds nothing and the aircraft has
/// not been visible for half an hour. The loss is announced then, and only then.
pub proof fn law_removed_only_when_lost(f: FlightModel, obs: ObservationModel, now: Timestamp)
    ensures
        f.advanced(obs, now).1.removal is Some <==> obs.outcome is Miss && f.last_visible_at is Some
            && now.spec_since(f.last_visible_at->0) >= TRACKING_LOST_REMOVAL * 1_000_000_000,
        f.advanced(obs, now).1.emits.contains(EmitModel::TrackingLost) <==> f.advanced(
            obs,
            now,
        ).1.removal is Some,
{
    let polled = FlightModel { last_adsb_poll_at: Some(now), ..f };
    if let OutcomeModel::Hit(ac) = obs.outcome {
        if let Some(raw) = polled.confirmation_by(ac, obs.used_hex, now) {
            lemma_sighted(polled, ac, raw, obs, now);
        }
    }
    let update = f.advanced(obs, now).1;
    if update.removal is Some {
        assert(update.emits.last() == EmitModel::TrackingLost);
    }
}

/// A poll never changes what was asked for: the identifier, the user, the time
/// and the schedule, nor the route.
pub proof fn law_request_is_kept(f: FlightModel, obs: ObservationModel, now: Timestamp)
    ensures
        ({
            let after = f.advanced(obs, now).0;
            &&& after.identifier == f.identifier
            &&& after.tracked_by == f.tracked_by
            &&& after.tracked_at == f.tracked_at
            &&& after.aviationstack_checked == f.aviationstack_checked
            &&& after.scheduled_departure_at == f.scheduled_departure_at
            &&& after.route == f.route
            &&& after.dest_lat == f.dest_lat
            &&& after.dest_lon == f.dest_lon
        }),
{
    let polled = FlightModel { last_adsb_poll_at: Some(now), ..f };
    if let OutcomeModel::Hit(ac) = obs.outcome {
        if let Some(raw) = polled.confirmation_by(ac, obs.used_hex, now) {
            lemma_sighted(polled, ac, raw, obs, now);
        }
    }
}

/// A poll never replaces a callsign or an address that the flight has, and
/// never drops an alias.
pub proof fn law_identity_is_kept(f: FlightModel, obs: ObservationModel, now: Timestamp)
    ensures
        keeps_names(f, f.advanced(obs, now).0),
{
    let polled = FlightModel { last_adsb_poll_at: Some(now), ..f };
    if let OutcomeModel::Hit(ac) = obs.outcome {
        if let Some(raw) = polled.confirmation_by(ac, obs.used_hex, now) {
            lemma_sighted(polled, ac, raw, obs, now);
        }
    }
}

/// The confirmed sighting moves only when the aircraft itself confirms the
/// flight, whereas the visibility moves with every sighting.
pub proof fn law_sightings_are_stamped(
    f: FlightModel,
    ac: AircraftModel,
    obs: ObservationModel,
    now: Timestamp,
)
    requires
        obs.outcome == OutcomeModel::Hit(ac),
        f.confirmation_by(ac, obs.used_hex, now) is Some,
    ensures
        f.advanced(obs, now).0.last_visible_at == Some(now),
        f.advanced(obs, now).0.last_seen == if f.confirmation_by(
            ac,
            obs.used_hex,
            now,
        )->0.confirmed() {
            Some(now)
        } else {
            f.last_seen
        },
{
    let polled = FlightModel { last_adsb_poll_at: Some(now), ..f };
    let raw = polled.confirmation_by(ac, obs.used_hex, now)->0;
    lemma_sighted(polled, ac, raw, obs, now);
}

/// A confirmation of the last five minutes survives a sighting at the assigned
/// address under another callsign.
pub proof fn law_recent_confirmation_is_sticky(
    f: FlightModel,
    ac: AircraftModel,
    obs: ObservationModel,
    now: Timestamp,
)
    requires
        obs.outcome == OutcomeModel::Hit(ac),
        obs.used_hex,
        f.target_confirmation.confirmed(),
        f.last_seen is Some,
        now.spec_since(f.last_seen->0) <= TRACKING_LOST_THRESHOLD * 1_000_000_000,
    ensures
        f.advanced(obs, now).0.target_confirmation.confirmed(),
        f.advanced(obs, now).1.removal is None,
{
    let polled = FlightModel { last_adsb_poll_at: Some(now), ..f };
    let raw = polled.confirmation_by(ac, obs.used_hex, now)->0;
    lemma_sighted(polled, ac, raw, obs, now);
}

/// A landing is announced with the takeoff as it was, after which the flight is
/// on the ground and has none.
pub proof fn law_landing_carries_takeoff(
    f: FlightModel,
    obs: ObservationModel,
    now: Timestamp,
    i: int,
)
    requires
        0 <= i < f.advanced(obs, now).1.emits.len(),
        f.advanced(obs, now).1.emits[i] is Landing,
    ensures
        f.advanced(obs, now).1.emits[i]->takeoff_at == f.takeoff_at,
        f.advanced(obs, now).0.phase is Ground,
        f.advanced(obs, now).0.takeoff_at is None,
{
    let polled = FlightModel { last_adsb_poll_at: Some(now), ..f };
    if let OutcomeModel::Hit(ac) = obs.outcome {
        if let Some(raw) = polled.confirmation_by(ac, obs.used_hex, now) {
            lemma_sighted(polled, ac, raw, obs, now);
        }
    }
}

/// A poll sets the takeoff only at the moment at which it takes the flight from
/// the ground into the air.
pub proof fn law_takeoff_from_ground(f: FlightModel, obs: ObservationModel, now: Timestamp)
    ensures
        ({
            let after = f.advanced(obs, now).0;
            after.takeoff_at != f.takeoff_at && after.takeoff_at is Some ==> after.takeoff_at
                == Some(now) && f.takeoff_at is None && f.phase is Ground && phase::airborne(
                after.phase,
            )
        }),
{
    let polled = FlightModel { last_adsb_poll_at: Some(now), ..f };
    if let OutcomeModel::Hit(ac) = obs.outcome {
        if let Some(raw) = polled.confirmation_by(ac, obs.used_hex, now) {
            lemma_sighted(polled, ac, raw, obs, now);
        }
    }
}

/// A diversion is announced only after enough anomalous polls in a row, and
/// only while the flight is coming down.
pub proof fn law_divert_needs_consecutive_polls(
    f: FlightModel,
    obs: ObservationModel,
    now: Timestamp,
)
    requires
        f.advanced(obs, now).1.emits.contains(EmitModel::PossibleDivert),
    ensures
        f.divert_consecutive_polls + 1 >= DIVERT_CONSECUTIVE_POLLS,
        f.advanced(obs, now).0.divert_consecutive_polls >= DIVERT_CONSECUTIVE_POLLS,
        f.advanced(obs, now).0.phase is Descent || f.advanced(obs, now).0.phase is Approach,
{
    let polled = FlightModel { last_adsb_poll_at: Some(now), ..f };
    if let OutcomeModel::Hit(ac) = obs.outcome {
        if let Some(raw) = polled.confirmation_by(ac, obs.used_hex, now) {
            lemma_sighted(polled, ac, raw, obs, now);
        }
    }
}

/// A flight inside the calendar stays inside it, and its messages can be
/// rendered.
pub proof fn lemma_advanced_valid(f: FlightModel, obs: ObservationModel, now: Timestamp)
    requires
        f.valid(),
        now.valid(),
    ensures
        f.advanced(obs, now).0.valid(),
        emits_valid(f.advanced(obs, now).1),
{
    let polled = FlightModel { last_adsb_poll_at: Some(now), ..f };
    if let OutcomeModel::Hit(ac) = obs.outcome {
        if let Some(raw) = polled.confirmation_by(ac, obs.used_hex, now) {
            lemma_sighted(polled, ac, raw, obs, now);
        }
    }
}

} // verus!
