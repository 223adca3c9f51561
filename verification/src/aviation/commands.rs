//! The chat commands about flights.

use vstd::prelude::*;
use vstd::string::StringExecFns;

use super::tracker;
use super::tracker::{FlightIdentifier, IdentifierModel};
use crate::decimal::Decimal;
use crate::text::{number, slice};

verus! {

/// The answer to `!track` without a flight.
pub const TRACK_USAGE: &'static str = "Benutzung: !track <callsign/hex> FDM";

/// The answer to `!fl` without an aircraft or a time.
pub const FLIGHT_USAGE: &'static str =
    "Gib mir nen Flugzeug und ne Zeit, z.B. !fl A20N 1h FDM";

/// The answer to `!fl` with an aircraft that is not known.
pub const UNKNOWN_AIRCRAFT: &'static str = "Das Flugzeug kenn ich nich FDM";

/// The answer to `!fl` where no route fits the time.
pub const NO_ROUTE: &'static str = "Hab keine Route gefunden, versuch mal ne andere Zeit FDM";

/// The flight that `!track` is about, or the answer to the user.
pub open spec fn track_target(args: Seq<Seq<char>>) -> Result<IdentifierModel, Seq<char>> {
    let input = slice::joined(args, " "@);
    if slice::trimmed(input).len() == 0 {
        Err(TRACK_USAGE@)
    } else {
        match tracker::identified(slice::uppercased(slice::trimmed(input))) {
            Ok(id) => Ok(id),
            Err(e) => Err(e.text() + " FDM"@),
        }
    }
}

/// The flight that `!track` is about, or the answer to the user.
pub fn parse_track_args(args: &Vec<String>) -> (r: Result<FlightIdentifier, String>)
    ensures
        match r {
            Ok(id) => track_target(slice::texts(args@)) == Ok::<IdentifierModel, Seq<char>>(id@),
            Err(text) => track_target(slice::texts(args@)) == Err::<IdentifierModel, Seq<char>>(
                text@,
            ),
        },
{
    let input = slice::join(args, " ");
    if slice::is_blank(input.as_str()) {
        return Err(TRACK_USAGE.to_owned());
    }
    match FlightIdentifier::parse(input.as_str()) {
        Ok(id) => Ok(id),
        Err(e) => {
            let mut text = e.message();
            text.append(" FDM");
            Err(text)
        },
    }
}

/// What stands in the way of a random flight, if anything does.
pub open spec fn obstacle(
    aircraft_given: bool,
    duration_given: bool,
    aircraft_known: bool,
    duration_valid: bool,
) -> Option<Seq<char>> {
    if !aircraft_given || !duration_given {
        Some(FLIGHT_USAGE@)
    } else if !aircraft_known {
        Some(UNKNOWN_AIRCRAFT@)
    } else if !duration_valid {
        Some(FLIGHT_USAGE@)
    } else {
        None
    }
}

/// What stands in the way of a random flight, if anything does: an argument
/// that is missing, an aircraft that is not known, or a time that is none.
pub fn flight_problem(
    aircraft_given: bool,
    duration_given: bool,
    aircraft_known: bool,
    duration_valid: bool,
) -> (r: Option<&'static str>)
    ensures
        slice::opt_str(r) == obstacle(
            aircraft_given,
            duration_given,
            aircraft_known,
            duration_valid,
        ),
{
    if !aircraft_given || !duration_given {
        Some(FLIGHT_USAGE)
    } else if !aircraft_known {
        Some(UNKNOWN_AIRCRAFT)
    } else if !duration_valid {
        Some(FLIGHT_USAGE)
    } else {
        None
    }
}

/// A flight plan.
#[derive(Debug)]
pub struct FlightPlan {
    pub departure_icao: String,
    pub arrival_icao: String,
    pub distance_nm: Decimal,
    /// The time from block to block, as it is shown.
    pub block_time: String,
    pub cruise_altitude_ft: u32,
    pub simbrief_url: String,
}

/// The answer with a flight plan.
pub open spec fn plan_text(p: FlightPlan) -> Seq<char> {
    p.departure_icao@ + " \u{2192} "@ + p.arrival_icao@ + " | "@ + p.distance_nm.whole_text()
        + " nm | "@ + p.block_time@ + " | FL"@ + number::decimal(p.cruise_altitude_ft as int / 100)
        + " | "@ + p.simbrief_url@
}

/// The answer with a flight plan.
pub fn format_flight_plan(p: &FlightPlan) -> (r: String)
    ensures
        r@ == plan_text(*p),
{
    let mut r = p.departure_icao.clone();
    r.append(" \u{2192} ");
    r.append(p.arrival_icao.as_str());
    r.append(" | ");
    r.append(p.distance_nm.to_whole_text().as_str());
    r.append(" nm | ");
    r.append(p.block_time.as_str());
    r.append(" | FL");
    r.append(number::unsigned_text((p.cruise_altitude_ft / 100) as u64).as_str());
    r.append(" | ");
    r.append(p.simbrief_url.as_str());
    r
}

} // verus!
