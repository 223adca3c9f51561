//! What holds of the phase of a flight and of what is told about it.

use vstd::prelude::*;

use super::advance;
use super::advance::{EmitModel, ObservationModel, OutcomeModel, UpdateModel};
use super::debug_journal;
use super::phase;
use super::{FlightModel, FlightPhase, TrackedFlight};
use crate::aviation::types::{AircraftModel, AltBaro, NearbyAircraft};
use crate::text::slice;
use crate::time::Timestamp;

verus! {

/// The aircraft reports this vertical rate, in feet per minute: by its barometer,
/// or where that is silent by its position.
pub open spec fn reports_rate(ac: NearbyAircraft, rate: i64) -> bool {
    ac.baro_rate == Some(rate) || (ac.baro_rate is None && ac.geom_rate == Some(rate))
}

/// The aircraft reports no vertical rate.
pub open spec fn reports_no_rate(ac: NearbyAircraft) -> bool {
    ac.baro_rate is None && ac.geom_rate is None
}

/// The aircraft is slower than so many knots. One that reports no speed stands
/// still.
pub open spec fn slower_than(ac: NearbyAircraft, knots: int) -> bool {
    ac.gs is None && knots > 0 || ac.gs is Some && ac.gs->0.micros < knots * 1_000_000
}

/// The aircraft is faster than so many knots.
pub open spec fn faster_than(ac: NearbyAircraft, knots: int) -> bool {
    ac.gs is Some && ac.gs->0.micros > knots * 1_000_000
}

/// The aircraft reports to be at so many feet.
pub open spec fn at_feet(ac: NearbyAircraft, feet: i64) -> bool {
    ac.alt_baro == Some(AltBaro::Feet(feet))
}

/// The aircraft is on the ground: it reports so, or it is below 200 feet and
/// slower than 30 knots.
pub open spec fn is_down(ac: NearbyAircraft) -> bool {
    ac.alt_baro == Some(AltBaro::Ground) || (exists|feet: i64|
        feet < 200 && #[trigger] at_feet(ac, feet)) && slower_than(ac, 30)
}

/// The autopilot of the aircraft is in approach mode.
pub open spec fn approaches(ac: NearbyAircraft) -> bool {
    ac.nav_modes is Some && slice::texts(ac.nav_modes->0@).contains("approach"@)
}

/// The flight has not been in the air yet.
pub open spec fn not_yet_up(p: FlightPhase) -> bool {
    p is Ground || p is Unknown
}

proof fn lemma_is_down(ac: NearbyAircraft)
    ensures
        ac@.on_ground() == is_down(ac),
{
    match ac.alt_baro {
        Some(AltBaro::Feet(ft)) => {
            assert(at_feet(ac, ft));
        },
        _ => {},
    }
}

/// On the ground a flight has landed, or has not left it.
pub proof fn law_on_the_ground(f: TrackedFlight, ac: NearbyAircraft)
    requires
        is_down(ac),
    ensures
        not_yet_up(f.phase) ==> phase::detected(f@, ac@) is Ground,
        !not_yet_up(f.phase) ==> phase::detected(f@, ac@) is Landing,
{
    lemma_is_down(ac);
}

/// No flight in the air lands or is put on the ground.
pub proof fn law_in_the_air(f: TrackedFlight, ac: NearbyAircraft)
    requires
        !is_down(ac),
    ensures
        phase::detected(f@, ac@) is Landing ==> f.phase is Landing,
        phase::detected(f@, ac@) is Ground ==> f.phase is Ground,
        phase::detected(f@, ac@) is Unknown ==> f.phase is Unknown,
{
    lemma_is_down(ac);
}

/// A flight takes off exactly where it has not been in the air yet and goes up
/// at more than 60 knots.
pub proof fn law_takeoffs(f: TrackedFlight, ac: NearbyAircraft)
    requires
        !(f.phase is Takeoff),
    ensures
        phase::detected(f@, ac@) is Takeoff <==> !is_down(ac) && not_yet_up(f.phase) && faster_than(
            ac,
            60,
        ) && exists|rate: i64| #[trigger] reports_rate(ac, rate) && rate > 0,
{
    lemma_is_down(ac);
    if ac@.rate() is Some {
        assert(reports_rate(ac, ac@.rate()->0));
    }
}

/// A flight in the air that goes up by more than 500 feet per minute climbs,
/// unless it is just taking off.
pub proof fn law_climbs(f: TrackedFlight, ac: NearbyAircraft, rate: i64)
    requires
        !is_down(ac),
        reports_rate(ac, rate),
        rate > 500,
        !(not_yet_up(f.phase) && faster_than(ac, 60)),
    ensures
        phase::detected(f@, ac@) is Climb,
{
    lemma_is_down(ac);
}

/// No flight begins to climb that does not go up by more than 500 feet per
/// minute.
pub proof fn law_only_climbs_climb(f: TrackedFlight, ac: NearbyAircraft)
    requires
        phase::detected(f@, ac@) is Climb,
        !(f.phase is Climb),
    ensures
        !is_down(ac),
        exists|rate: i64| #[trigger] reports_rate(ac, rate) && rate > 500,
{
    lemma_is_down(ac);
    assert(reports_rate(ac, ac@.rate()->0));
}

/// A flight in the air that goes down by more than 500 feet per minute is on its
/// descent or on its approach: on its approach where it is known to be below
/// 10000 feet, or at a known altitude in approach mode or on its approach before,
/// and else on its descent.
pub proof fn law_sinking_flights_come_down(f: TrackedFlight, ac: NearbyAircraft, rate: i64)
    requires
        !is_down(ac),
        reports_rate(ac, rate),
        rate < -500,
    ensures
        phase::detected(f@, ac@) is Approach <==> exists|feet: i64|
            #[trigger] at_feet(ac, feet) && (feet < 10_000 || approaches(ac) || f.phase is Approach),
        phase::detected(f@, ac@) is Descent <==> !(phase::detected(f@, ac@) is Approach),
{
    lemma_is_down(ac);
    match ac.alt_baro {
        Some(AltBaro::Feet(ft)) => {
            assert(at_feet(ac, ft));
        },
        _ => {},
    }
}

/// No flight begins its descent that does not go down by more than 500 feet per
/// minute.
pub proof fn law_only_sinking_flights_descend(f: TrackedFlight, ac: NearbyAircraft)
    requires
        phase::detected(f@, ac@) is Descent,
        !(f.phase is Descent),
    ensures
        !is_down(ac),
        exists|rate: i64| #[trigger] reports_rate(ac, rate) && rate < -500,
{
    lemma_is_down(ac);
    assert(reports_rate(ac, ac@.rate()->0));
}

/// No flight begins its approach that does not go down, and none that is not in
/// approach mode and does not go down by more than 500 feet per minute below
/// 10000 feet.
pub proof fn law_only_low_flights_approach(f: TrackedFlight, ac: NearbyAircraft)
    requires
        phase::detected(f@, ac@) is Approach,
        !(f.phase is Approach),
    ensures
        !is_down(ac),
        exists|rate: i64| #[trigger] reports_rate(ac, rate) && rate < 0 && (approaches(ac) || rate < -500),
        approaches(ac) || exists|feet: i64| #[trigger] at_feet(ac, feet) && feet < 10_000,
{
    lemma_is_down(ac);
    assert(reports_rate(ac, ac@.rate()->0));
    match ac.alt_baro {
        Some(AltBaro::Feet(ft)) => {
            assert(at_feet(ac, ft));
        },
        _ => {},
    }
}

/// A flight in approach mode that goes down, however slowly, is on its approach.
pub proof fn law_approach_mode_counts(f: TrackedFlight, ac: NearbyAircraft, rate: i64)
    requires
        !is_down(ac),
        approaches(ac),
        reports_rate(ac, rate),
        -500 <= rate < 0,
    ensures
        phase::detected(f@, ac@) is Approach,
{
    lemma_is_down(ac);
}

/// A flight cruises, where it did not before, exactly above 10000 feet while it
/// goes up or down by less than 300 feet per minute, once its phase has been the
/// same for two polls, unless it is coming down or about to take off.
pub proof fn law_cruises(f: TrackedFlight, ac: NearbyAircraft, rate: i64)
    requires
        reports_rate(ac, rate),
        !(f.phase is Cruise),
    ensures
        phase::detected(f@, ac@) is Cruise <==> {
            &&& exists|feet: i64| #[trigger] at_feet(ac, feet) && feet > 10_000
            &&& -300 < rate < 300
            &&& f.polls_since_change >= 2
            &&& !(f.phase is Descent) && !(f.phase is Approach)
            &&& !(approaches(ac) && rate < 0)
            &&& !(not_yet_up(f.phase) && faster_than(ac, 60) && rate > 0)
        },
{
    lemma_is_down(ac);
    match ac.alt_baro {
        Some(AltBaro::Feet(ft)) => {
            assert(at_feet(ac, ft));
        },
        _ => {},
    }
}

/// Without a vertical rate nothing is known of a flight in the air: it stays in
/// its phase.
pub proof fn law_silence_changes_nothing(f: TrackedFlight, ac: NearbyAircraft)
    requires
        !is_down(ac),
        reports_no_rate(ac),
    ensures
        phase::detected(f@, ac@) == f.phase,
{
    lemma_is_down(ac);
}

/// A flight in the air that goes neither up nor down by more than 500 feet per
/// minute keeps its phase where it is not above 10000 feet, not in approach mode
/// and not about to take off.
pub proof fn law_level_flight_changes_nothing(f: TrackedFlight, ac: NearbyAircraft, rate: i64)
    requires
        !is_down(ac),
        reports_rate(ac, rate),
        -500 <= rate <= 500,
        !approaches(ac),
        !(exists|feet: i64| #[trigger] at_feet(ac, feet) && feet > 10_000),
        !not_yet_up(f.phase),
    ensures
        phase::detected(f@, ac@) == f.phase,
{
    lemma_is_down(ac);
    match ac.alt_baro {
        Some(AltBaro::Feet(ft)) => {
            assert(at_feet(ac, ft));
        },
        _ => {},
    }
}

/// The other vertical rate does not count where the barometer gives one.
pub proof fn law_the_barometer_leads(f: TrackedFlight, a: NearbyAircraft, b: NearbyAircraft)
    requires
        a.baro_rate is Some,
        b == (NearbyAircraft { geom_rate: b.geom_rate, ..a }),
    ensures
        phase::detected(f@, a@) == phase::detected(f@, b@),
{
}

/// What is told in addition is told, and nothing else is.
proof fn lemma_emitted(u: UpdateModel, e: EmitModel, x: EmitModel)
    ensures
        u.emit(e).emits.contains(x) <==> u.emits.contains(x) || x == e,
{
    let all = u.emits.push(e);
    assert(all[u.emits.len() as int] == e);
    if u.emits.contains(x) {
        let i = choose|i: int| 0 <= i < u.emits.len() && u.emits[i] == x;
        assert(all[i] == x);
    }
    if all.contains(x) && x != e {
        let i = choose|i: int| 0 <= i < all.len() && all[i] == x;
        assert(u.emits[i] == x);
    }
}

/// The message about the phase that a flight enters, if there is one.
pub open spec fn message_about(p: FlightPhase, takeoff_at: Option<Timestamp>) -> Option<EmitModel> {
    match p {
        FlightPhase::Takeoff => Some(EmitModel::Takeoff),
        FlightPhase::Cruise => Some(EmitModel::Cruise),
        FlightPhase::Descent => Some(EmitModel::Descent),
        FlightPhase::Approach => Some(EmitModel::Approach),
        FlightPhase::Landing => Some(EmitModel::Landing { takeoff_at }),
        _ => None,
    }
}

/// The message is one about a phase.
pub open spec fn about_phase(e: EmitModel) -> bool {
    e is Takeoff || e is Cruise || e is Descent || e is Approach || e is Landing
}

/// What a sighting does to the phase, and what is told of it.
proof fn lemma_sighted_phase(
    f: FlightModel,
    ac: AircraftModel,
    raw: super::TargetConfirmation,
    obs: ObservationModel,
    now: Timestamp,
)
    ensures
        ({
            let (g, v) = f.sighted(ac, raw, obs, now);
            let s = f.sighting(ac, raw, obs.used_hex, now);
            let anew = s.became_confirmed && s.was_pending;
            let h = if anew {
                FlightModel { phase: FlightPhase::Unknown, polls_since_change: 0, ..f }
            } else {
                f
            };
            let d = phase::detected(h, ac);
            let same = !s.sample || d == h.phase;
            &&& g.phase == if same {
                h.phase
            } else if d is Landing {
                FlightPhase::Ground
            } else {
                d
            }
            &&& g.polls_since_change == if !s.sample {
                h.polls_since_change
            } else if same {
                advance::one_more(h.polls_since_change)
            } else {
                0
            }
            &&& g.takeoff_at == if same {
                f.takeoff_at
            } else if d is Landing {
                None
            } else if h.phase is Ground && (d is Takeoff || d is Climb || d is Cruise || d is Descent
                || d is Approach) && f.takeoff_at is None {
                Some(now)
            } else {
                f.takeoff_at
            }
            &&& forall|e: EmitModel| #[trigger]
                v.emits.contains(e) && about_phase(e) ==> !same && message_about(d, f.takeoff_at)
                    == Some(e)
            &&& !same && message_about(d, f.takeoff_at) is Some ==> v.emits.contains(
                message_about(d, f.takeoff_at)->0,
            )
            &&& v.emits.contains(EmitModel::AdsbVisible) <==> s.became_confirmed
            &&& forall|code: Seq<char>, meaning: Seq<char>|
                #[trigger] v.emits.contains(EmitModel::SquawkEmergency { code, meaning }) <==> {
                    &&& s.sample
                    &&& ac.squawk == Some(code)
                    &&& f.squawk != ac.squawk
                    &&& phase::emergency(code) == Some(meaning)
                }
        }),
{
    reveal(FlightModel::phased);
    reveal(FlightModel::diverted);
    reveal(FlightModel::observed);
    reveal(advance::identity_update);
    reveal(advance::squawked);
    let s = f.sighting(ac, raw, obs.used_hex, now);
    let reported = UpdateModel::nothing().record(
        debug_journal::poll_event(
            f,
            obs.poll_input("hit"@, Some(ac), Some(s), f.last_seen_age(now)),
        ),
    );
    let seen = f.seen(s, now);
    let observed = seen.observed(ac, s.confirmation, s.direct);
    let known = advance::identity_update(reported, seen, observed, ac, s);
    let warned = advance::squawked(known, f.squawk, ac, s);
    let told = advance::first_contact(warned, s);
    let restarted = observed.restarted(s);
    let (after, update) = restarted.phased(told, ac, s, now);
    let (g, v) = after.diverted(update, f.lat, f.lon, obs.bearings, s);
    assert(f.sighted(ac, raw, obs, now) == (g, v));
    assert(known.emits =~= Seq::<EmitModel>::empty());
    let h = if s.became_confirmed && s.was_pending {
        FlightModel { phase: FlightPhase::Unknown, polls_since_change: 0, ..f }
    } else {
        f
    };
    assert(restarted.phase == h.phase && restarted.polls_since_change == h.polls_since_change);
    let d = phase::detected(h, ac);
    assert(d == phase::detected(restarted, ac));
    assert(restarted.takeoff_at == f.takeoff_at);
    let same = !s.sample || d == h.phase;
    assert(update.emits == if !same && message_about(d, f.takeoff_at) is Some {
        told.emits.push(message_about(d, f.takeoff_at)->0)
    } else {
        told.emits
    });
    assert(v.emits == update.emits || v.emits == update.emits.push(EmitModel::PossibleDivert));
    let danger = s.sample && ac.squawk is Some && f.squawk != ac.squawk && phase::emergency(
        ac.squawk->0,
    ) is Some;
    let alarm = EmitModel::SquawkEmergency {
        code: ac.squawk->0,
        meaning: phase::emergency(ac.squawk->0)->0,
    };
    assert forall|e: EmitModel|
        #![trigger v.emits.contains(e)]
        v.emits.contains(e) <==> {
            ||| danger && e == alarm
            ||| s.became_confirmed && e is AdsbVisible
            ||| !same && message_about(d, f.takeoff_at) == Some(e)
            ||| v.emits != update.emits && e is PossibleDivert
        } by {
        lemma_emitted(known, alarm, e);
        lemma_emitted(warned, EmitModel::AdsbVisible, e);
        lemma_emitted(told, message_about(d, f.takeoff_at)->0, e);
        lemma_emitted(update, EmitModel::PossibleDivert, e);
        assert(!known.emits.contains(e));
    }
}

/// The flight is known to be the one that was asked for.
pub open spec fn is_known(f: FlightModel) -> bool {
    f.target_confirmation is ConfirmedByCallsign || f.target_confirmation is InferredByAssignedHex
}

/// A flight that enters a new phase in the air is announced with that phase, and
/// nothing is announced of a phase in which the flight is not.
pub proof fn law_new_phases_are_announced(f: FlightModel, obs: ObservationModel, now: Timestamp)
    ensures
        ({
            let (g, v) = f.advanced(obs, now);
            &&& g.phase is Takeoff && !(f.phase is Takeoff) ==> v.emits.contains(EmitModel::Takeoff)
            &&& g.phase is Cruise && !(f.phase is Cruise) ==> v.emits.contains(EmitModel::Cruise)
            &&& g.phase is Descent && !(f.phase is Descent) ==> v.emits.contains(EmitModel::Descent)
            &&& g.phase is Approach && !(f.phase is Approach) ==> v.emits.contains(
                EmitModel::Approach,
            )
            &&& v.emits.contains(EmitModel::Takeoff) ==> g.phase is Takeoff
            &&& v.emits.contains(EmitModel::Cruise) ==> g.phase is Cruise
            &&& v.emits.contains(EmitModel::Descent) ==> g.phase is Descent
            &&& v.emits.contains(EmitModel::Approach) ==> g.phase is Approach
        }),
{
    let polled = FlightModel { last_adsb_poll_at: Some(now), ..f };
    if let OutcomeModel::Hit(ac) = obs.outcome {
        if let Some(raw) = polled.confirmation_by(ac, obs.used_hex, now) {
            lemma_sighted_phase(polled, ac, raw, obs, now);
        }
    }
    assert(!UpdateModel::nothing().emits.contains(EmitModel::Takeoff));
}

/// A known flight that comes down to the ground is announced to have landed, with
/// its takeoff, and no other landing is announced.
pub proof fn law_landings_are_announced(f: FlightModel, obs: ObservationModel, now: Timestamp)
    ensures
        ({
            let (g, v) = f.advanced(obs, now);
            &&& is_known(f) && g.phase is Ground && !(f.phase is Ground) && !(f.phase is Unknown)
                ==> v.emits.contains(EmitModel::Landing { takeoff_at: f.takeoff_at })
            &&& forall|e: EmitModel| #[trigger]
                v.emits.contains(e) && e is Landing ==> e->takeoff_at == f.takeoff_at && g.phase
                    is Ground && !(f.phase is Ground) && !(f.phase is Unknown) && g.takeoff_at
                    is None && exists|ac: AircraftModel| #[trigger]
                    phase::detected(f, ac) is Landing && obs.outcome == OutcomeModel::Hit(ac)
        }),
{
    let polled = FlightModel { last_adsb_poll_at: Some(now), ..f };
    if let OutcomeModel::Hit(ac) = obs.outcome {
        if let Some(raw) = polled.confirmation_by(ac, obs.used_hex, now) {
            lemma_sighted_phase(polled, ac, raw, obs, now);
            assert(phase::detected(polled, ac) == phase::detected(f, ac));
        }
    }
}

/// A known flight whose aircraft transmits a callsign of the flight is in the
/// phase in which the aircraft is. Landed, it is on the ground.
pub proof fn law_known_flights_follow_their_aircraft(
    f: FlightModel,
    ac: NearbyAircraft,
    obs: ObservationModel,
    now: Timestamp,
)
    requires
        obs.outcome == OutcomeModel::Hit(ac@),
        is_known(f),
        ac.flight is Some,
        slice::trimmed(ac.flight->0@).len() > 0,
        f.goes_by(slice::trimmed(ac.flight->0@)),
    ensures
        ({
            let g = f.advanced(obs, now).0;
            let d = phase::detected(f, ac@);
            &&& g.phase == if d is Landing && !(f.phase is Landing) {
                FlightPhase::Ground
            } else {
                d
            }
            &&& g.phase != f.phase ==> g.polls_since_change == 0
            &&& g.phase == f.phase && f.polls_since_change < u32::MAX ==> g.polls_since_change
                == f.polls_since_change + 1
        }),
{
    let polled = FlightModel { last_adsb_poll_at: Some(now), ..f };
    let raw = polled.confirmation_by(ac@, obs.used_hex, now)->0;
    lemma_sighted_phase(polled, ac@, raw, obs, now);
    assert(phase::detected(polled, ac@) == phase::detected(f, ac@));
}

/// An aircraft that transmits a callsign that is none of the flight, and was not
/// asked for by its address, says nothing about the phase of the flight and sets
/// off no message about it.
pub proof fn law_strangers_change_no_phase(
    f: FlightModel,
    ac: NearbyAircraft,
    obs: ObservationModel,
    now: Timestamp,
)
    requires
        obs.outcome == OutcomeModel::Hit(ac@),
        f.identifier is Callsign,
        ac.flight is Some,
        slice::trimmed(ac.flight->0@).len() > 0,
        !f.goes_by(slice::trimmed(ac.flight->0@)),
    ensures
        f.advanced(obs, now).0.phase == f.phase,
        f.advanced(obs, now).0.takeoff_at == f.takeoff_at,
        forall|e: EmitModel| #[trigger]
            f.advanced(obs, now).1.emits.contains(e) ==> !about_phase(e) && !(e is SquawkEmergency),
{
    let polled = FlightModel { last_adsb_poll_at: Some(now), ..f };
    if let Some(raw) = polled.confirmation_by(ac@, obs.used_hex, now) {
        lemma_sighted_phase(polled, ac@, raw, obs, now);
        assert forall|e: EmitModel| #[trigger]
            f.advanced(obs, now).1.emits.contains(e) implies !about_phase(e)
            && !(e is SquawkEmergency) by {
            if e is SquawkEmergency {
                let x = EmitModel::SquawkEmergency { code: e->code, meaning: e->meaning };
                assert(e == x);
            }
        }
    }
}

/// A known flight that leaves the ground has taken off at that moment, unless its
/// takeoff is known already. Once it has landed it has no takeoff, and in between
/// the takeoff stays.
pub proof fn law_takeoffs_are_timed(f: FlightModel, obs: ObservationModel, now: Timestamp)
    requires
        is_known(f),
    ensures
        ({
            let g = f.advanced(obs, now).0;
            &&& f.phase is Ground && f.takeoff_at is None && g.phase != f.phase ==> g.takeoff_at
                == Some(now)
            &&& g.phase is Ground && g.phase != f.phase && !(f.phase is Unknown) ==> g.takeoff_at
                is None
            &&& f.takeoff_at is Some && !(g.phase is Ground) ==> g.takeoff_at == f.takeoff_at
            &&& g.phase == f.phase && !(f.phase is Ground) ==> g.takeoff_at == f.takeoff_at
        }),
{
    let polled = FlightModel { last_adsb_poll_at: Some(now), ..f };
    if let OutcomeModel::Hit(ac) = obs.outcome {
        if let Some(raw) = polled.confirmation_by(ac, obs.used_hex, now) {
            lemma_sighted_phase(polled, ac, raw, obs, now);
        }
    }
}

/// A warning is given exactly about a squawk of a hijack, a radio failure or an
/// emergency, with what it stands for, when the aircraft of a flight changes to
/// it.
pub proof fn law_emergencies_are_announced(
    f: FlightModel,
    ac: NearbyAircraft,
    obs: ObservationModel,
    now: Timestamp,
    code: Seq<char>,
    meaning: Seq<char>,
)
    requires
        obs.outcome == OutcomeModel::Hit(ac@),
        ac.flight is Some,
        slice::trimmed(ac.flight->0@).len() > 0,
        f.goes_by(slice::trimmed(ac.flight->0@)),
    ensures
        f.advanced(obs, now).1.emits.contains(EmitModel::SquawkEmergency { code, meaning }) <==> {
            &&& ac.squawk is Some && ac.squawk->0@ == code
            &&& f.squawk != Some(code)
            &&& {
                ||| code == "7500"@ && meaning == "Hijack"@
                ||| code == "7600"@ && meaning == "Radio Failure"@
                ||| code == "7700"@ && meaning == "Emergency"@
            }
        },
{
    reveal_strlit("7500");
    reveal_strlit("7600");
    reveal_strlit("7700");
    assert("7500"@[1] != "7600"@[1] && "7500"@[1] != "7700"@[1] && "7600"@[1] != "7700"@[1]);
    let polled = FlightModel { last_adsb_poll_at: Some(now), ..f };
    let raw = polled.confirmation_by(ac@, obs.used_hex, now)->0;
    lemma_sighted_phase(polled, ac@, raw, obs, now);
    let e = EmitModel::SquawkEmergency { code, meaning };
    assert(f.advanced(obs, now) == polled.sighted(ac@, raw, obs, now));
}

/// The first confirmation of a flight is announced, and no other sighting is.
pub proof fn law_first_contacts_are_announced(f: FlightModel, obs: ObservationModel, now: Timestamp)
    ensures
        f.advanced(obs, now).1.emits.contains(EmitModel::AdsbVisible) <==> !is_known(f)
            && is_known(f.advanced(obs, now).0),
{
    let polled = FlightModel { last_adsb_poll_at: Some(now), ..f };
    if let OutcomeModel::Hit(ac) = obs.outcome {
        if let Some(raw) = polled.confirmation_by(ac, obs.used_hex, now) {
            lemma_sighted_phase(polled, ac, raw, obs, now);
            super::laws::lemma_sighted_confirmation(polled, ac, raw, obs, now);
        }
    }
}

} // verus!
