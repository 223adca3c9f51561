//! Detection of flight phases, diversions and emergencies.

use vstd::prelude::*;

use super::{FlightModel, FlightPhase, TrackedFlight, DIVERT_CONSECUTIVE_POLLS};
use crate::aviation::types::{AircraftModel, AltBaro, NearbyAircraft};
use crate::text::slice;

verus! {

pub const CLIMB_RATE_THRESHOLD: i64 = 500;

pub const DESCENT_RATE_THRESHOLD: i64 = -500;

pub const CRUISE_RATE_THRESHOLD: i64 = 300;

pub const CRUISE_MIN_ALTITUDE: i64 = 10_000;

pub const APPROACH_MAX_ALTITUDE: i64 = 10_000;

pub const GROUND_MAX_ALTITUDE: i64 = 200;

/// Speeds in millionths of a knot.
pub const GROUND_MAX_SPEED: i64 = 30_000_000;

pub const TAKEOFF_MIN_SPEED: i64 = 60_000_000;

pub const CRUISE_STABLE_POLLS: u32 = 2;

impl AircraftModel {
    /// The altitude in feet, which is zero on the ground.
    pub open spec fn altitude(self) -> Option<i64> {
        match self.alt_baro {
            Some(AltBaro::Feet(ft)) => Some(ft),
            Some(AltBaro::Ground) => Some(0i64),
            None => None,
        }
    }

    /// The vertical rate: barometric, else geometric.
    pub open spec fn rate(self) -> Option<i64> {
        if self.baro_rate is Some {
            self.baro_rate
        } else {
            self.geom_rate
        }
    }

    /// The ground speed in millionths of a knot, zero where it is unknown.
    pub open spec fn speed(self) -> int {
        match self.gs {
            Some(d) => d.micros as int,
            None => 0,
        }
    }

    /// The aircraft says so, or is both low and slow.
    pub open spec fn on_ground(self) -> bool {
        match self.alt_baro {
            Some(AltBaro::Ground) => true,
            Some(AltBaro::Feet(ft)) => ft < GROUND_MAX_ALTITUDE && self.speed() < GROUND_MAX_SPEED,
            None => false,
        }
    }

    /// The autopilot is in approach mode.
    pub open spec fn approach_mode(self) -> bool {
        match self.nav_modes {
            Some(modes) => modes.contains("approach"@),
            None => false,
        }
    }
}

pub open spec fn airborne(phase: FlightPhase) -> bool {
    phase is Takeoff || phase is Climb || phase is Cruise || phase is Descent || phase is Approach
}

/// The phase in which an observation puts a flight.
pub open spec fn detected(f: FlightModel, ac: AircraftModel) -> FlightPhase {
    let rate = match ac.rate() {
        Some(r) => r as int,
        None => 0,
    };
    let grounded = f.phase is Ground || f.phase is Unknown;
    if ac.on_ground() {
        if grounded {
            FlightPhase::Ground
        } else {
            FlightPhase::Landing
        }
    } else if grounded && ac.speed() > TAKEOFF_MIN_SPEED && rate > 0 {
        FlightPhase::Takeoff
    } else if rate < DESCENT_RATE_THRESHOLD {
        if ac.altitude() is Some && (ac.altitude()->0 < APPROACH_MAX_ALTITUDE || ac.approach_mode()
            || f.phase is Approach) {
            FlightPhase::Approach
        } else {
            FlightPhase::Descent
        }
    } else if ac.approach_mode() && rate < 0 {
        FlightPhase::Approach
    } else if ac.rate() is Some && ac.altitude() is Some && ac.altitude()->0 > CRUISE_MIN_ALTITUDE
        && -CRUISE_RATE_THRESHOLD < rate < CRUISE_RATE_THRESHOLD && f.polls_since_change
        >= CRUISE_STABLE_POLLS && !(f.phase is Descent) && !(f.phase is Approach) {
        FlightPhase::Cruise
    } else if rate > CLIMB_RATE_THRESHOLD {
        FlightPhase::Climb
    } else {
        f.phase
    }
}

/// The altitude in feet, which is zero on the ground.
pub fn altitude_ft(ac: &NearbyAircraft) -> (r: Option<i64>)
    ensures
        r == ac@.altitude(),
{
    match ac.alt_baro {
        Some(AltBaro::Feet(ft)) => Some(ft),
        Some(AltBaro::Ground) => Some(0),
        None => None,
    }
}

/// The vertical rate: barometric, else geometric.
pub fn vertical_rate(ac: &NearbyAircraft) -> (r: Option<i64>)
    ensures
        r == ac@.rate(),
{
    match ac.baro_rate {
        Some(r) => Some(r),
        None => ac.geom_rate,
    }
}

fn speed(ac: &NearbyAircraft) -> (r: i64)
    ensures
        r == ac@.speed(),
{
    match ac.gs {
        Some(d) => d.micros,
        None => 0,
    }
}

/// Whether the aircraft says so, or is both low and slow.
pub fn is_on_ground(ac: &NearbyAircraft) -> (b: bool)
    ensures
        b == ac@.on_ground(),
{
    match ac.alt_baro {
        Some(AltBaro::Ground) => true,
        Some(AltBaro::Feet(ft)) => ft < GROUND_MAX_ALTITUDE && speed(ac) < GROUND_MAX_SPEED,
        None => false,
    }
}

fn has_approach_mode(ac: &NearbyAircraft) -> (b: bool)
    ensures
        b == ac@.approach_mode(),
{
    match &ac.nav_modes {
        Some(modes) => {
            let mut i: usize = 0;
            while i < modes.len()
                invariant
                    i <= modes@.len(),
                    ac@.nav_modes == Some(slice::texts(modes@)),
                    forall|j: int| 0 <= j < i ==> slice::texts(modes@)[j] != "approach"@,
                decreases modes@.len() - i,
            {
                if slice::same(modes[i].as_str(), "approach") {
                    assert(slice::texts(modes@)[i as int] == "approach"@);
                    return true;
                }
                i = i + 1;
            }
            false
        },
        None => false,
    }
}

pub fn is_airborne_phase(phase: FlightPhase) -> (b: bool)
    ensures
        b == airborne(phase),
{
    match phase {
        FlightPhase::Takeoff => true,
        FlightPhase::Climb => true,
        FlightPhase::Cruise => true,
        FlightPhase::Descent => true,
        FlightPhase::Approach => true,
        _ => false,
    }
}

/// The number of consecutive anomalous polls after one more poll.
pub open spec fn divert_count(before: u32, anomalous: bool) -> u32 {
    if !anomalous {
        0
    } else if before == u32::MAX {
        u32::MAX
    } else {
        (before + 1) as u32
    }
}

/// Counts consecutive anomalous polls and says whether they raise an alert.
pub fn update_divert_counter(divert_consecutive_polls: &mut u32, is_anomalous: bool) -> (alert:
    bool)
    ensures
        *final(divert_consecutive_polls) == divert_count(
            *old(divert_consecutive_polls),
            is_anomalous,
        ),
        alert == (*final(divert_consecutive_polls) >= DIVERT_CONSECUTIVE_POLLS),
{
    if is_anomalous {
        *divert_consecutive_polls = (*divert_consecutive_polls).saturating_add(1);
        *divert_consecutive_polls >= DIVERT_CONSECUTIVE_POLLS
    } else {
        *divert_consecutive_polls = 0;
        false
    }
}

/// The phase in which an observation puts a flight.
pub fn detect_phase(flight: &TrackedFlight, ac: &NearbyAircraft) -> (phase: FlightPhase)
    ensures
        phase == detected(flight@, ac@),
{
    let grounded = flight.phase == FlightPhase::Ground || flight.phase == FlightPhase::Unknown;
    if is_on_ground(ac) {
        return if grounded {
            FlightPhase::Ground
        } else {
            FlightPhase::Landing
        };
    }
    let alt = altitude_ft(ac);
    let vrate = vertical_rate(ac);
    let rate: i64 = match vrate {
        Some(r) => r,
        None => 0,
    };
    if grounded && speed(ac) > TAKEOFF_MIN_SPEED && rate > 0 {
        return FlightPhase::Takeoff;
    }
    let approach_mode = has_approach_mode(ac);
    if rate < DESCENT_RATE_THRESHOLD {
        return match alt {
            Some(alt) if alt < APPROACH_MAX_ALTITUDE || approach_mode || flight.phase
                == FlightPhase::Approach => FlightPhase::Approach,
            _ => FlightPhase::Descent,
        };
    }
    if approach_mode && rate < 0 {
        return FlightPhase::Approach;
    }
    if let (Some(alt), Some(rate)) = (alt, vrate) {
        if alt > CRUISE_MIN_ALTITUDE && -CRUISE_RATE_THRESHOLD < rate && rate
            < CRUISE_RATE_THRESHOLD && flight.polls_since_change >= CRUISE_STABLE_POLLS
            && flight.phase != FlightPhase::Descent && flight.phase != FlightPhase::Approach {
            return FlightPhase::Cruise;
        }
    }
    if rate > CLIMB_RATE_THRESHOLD {
        return FlightPhase::Climb;
    }
    flight.phase
}

/// What an emergency squawk stands for.
pub open spec fn emergency(squawk: Seq<char>) -> Option<Seq<char>> {
    if squawk == "7500"@ {
        Some("Hijack"@)
    } else if squawk == "7600"@ {
        Some("Radio Failure"@)
    } else if squawk == "7700"@ {
        Some("Emergency"@)
    } else {
        None
    }
}

/// What an emergency squawk stands for.
pub fn emergency_squawk_meaning(squawk: &str) -> (r: Option<&'static str>)
    ensures
        slice::opt_str(r) == emergency(squawk@),
{
    if slice::same(squawk, "7500") {
        Some("Hijack")
    } else if slice::same(squawk, "7600") {
        Some("Radio Failure")
    } else if slice::same(squawk, "7700") {
        Some("Emergency")
    } else {
        None
    }
}

} // verus!
