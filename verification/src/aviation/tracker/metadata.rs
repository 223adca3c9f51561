//! What metadata and observations add to the identity of a flight.

use vstd::prelude::*;
use vstd::string::StringExecFns;

use super::{FlightIdentifier, FlightModel, HexSource, TrackedFlight};
use crate::aviation::codes;
use crate::aviation::types::{AviationstackFlightMetadata, MetadataModel};
use crate::decimal::Decimal;
use crate::text::{chars, slice};

verus! {

/// A flight code without padding and in upper case, unless it is blank.
pub open spec fn code(value: Seq<char>) -> Option<Seq<char>> {
    if slice::trimmed(value).len() == 0 {
        None
    } else {
        Some(slice::uppercased(slice::trimmed(value)))
    }
}

/// Whether a flight code is without padding and in upper case already.
pub open spec fn is_code(value: Seq<char>) -> bool {
    code(value) == Some(value)
}

/// Whether all texts are flight codes without padding and in upper case.
pub open spec fn are_codes(aliases: Seq<Seq<char>>) -> bool {
    forall|i: int| 0 <= i < aliases.len() ==> is_code(#[trigger] aliases[i])
}

/// A flight code without padding and in upper case, unless it is blank. The
/// code of a code is the code itself.
pub fn normalize_flight_code(value: &str) -> (r: Option<String>)
    ensures
        slice::opt_text(r) == code(value@),
        r is Some ==> is_code(r->0@),
{
    let t = slice::trim(value);
    proof {
        slice::lemma_trimmed(value@);
    }
    if t.as_str().is_empty() {
        None
    } else {
        Some(slice::to_upper(t.as_str()))
    }
}

/// An ICAO24 address without padding and in upper case.
pub open spec fn address(value: Seq<char>) -> Option<Seq<char>> {
    if codes::icao24(slice::trimmed(value)) {
        Some(chars::ascii_uppered(slice::trimmed(value)))
    } else {
        None
    }
}

/// An ICAO24 address without padding and in upper case.
pub fn normalize_icao24(value: &str) -> (r: Option<String>)
    ensures
        slice::opt_text(r) == address(value@),
{
    let t = slice::trim(value);
    if codes::is_icao24(t.as_str()) {
        assert(chars::all_ascii(t@)) by {
            assert forall|i: int| 0 <= i < t@.len() implies (#[trigger] t@[i] as u32) < 0x80 by {
                assert(chars::hex_digit(t@[i]));
            }
        }
        Some(slice::to_upper(t.as_str()))
    } else {
        None
    }
}

/// The list holds the text up to the case of ASCII letters.
pub open spec fn knows(aliases: Seq<Seq<char>>, text: Seq<char>) -> bool {
    exists|i: int| 0 <= i < aliases.len() && chars::same_ignoring_case(#[trigger] aliases[i], text)
}

/// The aliases with one more, unless it is blank or known already.
pub open spec fn with_alias(aliases: Seq<Seq<char>>, value: Seq<char>) -> Seq<Seq<char>> {
    match code(value) {
        Some(alias) => if knows(aliases, alias) {
            aliases
        } else {
            aliases.push(alias)
        },
        None => aliases,
    }
}

/// The aliases with an optional one more.
pub open spec fn with_opt_alias(
    aliases: Seq<Seq<char>>,
    value: Option<Seq<char>>,
) -> Seq<Seq<char>> {
    match value {
        Some(v) => with_alias(aliases, v),
        None => aliases,
    }
}

/// Whether the list holds the text up to the case of ASCII letters.
pub fn known(aliases: &Vec<String>, text: &str) -> (b: bool)
    ensures
        b == knows(slice::texts(aliases@), text@),
{
    let mut i: usize = 0;
    while i < aliases.len()
        invariant
            i <= aliases@.len(),
            forall|j: int|
                0 <= j < i ==> !chars::same_ignoring_case(
                    #[trigger] slice::texts(aliases@)[j],
                    text@,
                ),
        decreases aliases@.len() - i,
    {
        if slice::eq_ignoring_case(aliases[i].as_str(), text) {
            assert(chars::same_ignoring_case(slice::texts(aliases@)[i as int], text@));
            return true;
        }
        i = i + 1;
    }
    false
}

/// Adds an alias, unless it is blank or known already.
pub fn push_alias(aliases: &mut Vec<String>, value: &str)
    ensures
        slice::texts(final(aliases)@) == with_alias(slice::texts(old(aliases)@), value@),
        are_codes(slice::texts(old(aliases)@)) ==> are_codes(slice::texts(final(aliases)@)),
{
    if let Some(alias) = normalize_flight_code(value) {
        if !known(aliases, alias.as_str()) {
            let ghost text = alias@;
            aliases.push(alias);
            assert(slice::texts(aliases@) =~= slice::texts(old(aliases)@).push(text));
        }
    }
}

/// Adds an alias to the flight, unless it is blank or known already.
pub fn add_alias_callsign(flight: &mut TrackedFlight, value: &str)
    ensures
        final(flight)@ == (FlightModel {
            alias_callsigns: with_alias(old(flight)@.alias_callsigns, value@),
            ..old(flight)@
        }),
{
    push_alias(&mut flight.alias_callsigns, value);
}

/// The flight with its own callsigns among its aliases.
pub open spec fn seeded(f: FlightModel) -> FlightModel {
    FlightModel {
        alias_callsigns: with_opt_alias(
            with_opt_alias(f.alias_callsigns, f.identifier.callsign()),
            f.callsign,
        ),
        ..f
    }
}

/// Adds the flight's own callsigns to its aliases: the requested one, then the
/// resolved one.
pub fn seed_flight_aliases(flight: &mut TrackedFlight)
    ensures
        final(flight)@ == seeded(old(flight)@),
{
    if let FlightIdentifier::Callsign(s) = &flight.identifier {
        push_alias(&mut flight.alias_callsigns, s.as_str());
    }
    if let Some(s) = &flight.callsign {
        push_alias(&mut flight.alias_callsigns, s.as_str());
    }
}

/// The flight with a route, unless an end of it is blank. The coordinates of
/// the destination are taken over where they are known.
pub open spec fn routed(
    f: FlightModel,
    origin: Seq<char>,
    dest: Seq<char>,
    coords: Option<(Decimal, Decimal)>,
) -> FlightModel {
    let origin = slice::uppercased(slice::trimmed(origin));
    let dest = slice::uppercased(slice::trimmed(dest));
    if origin.len() == 0 || dest.len() == 0 {
        f
    } else {
        FlightModel {
            route: Some((origin, dest)),
            dest_lat: match coords {
                Some(c) => Some(c.0),
                None => f.dest_lat,
            },
            dest_lon: match coords {
                Some(c) => Some(c.1),
                None => f.dest_lon,
            },
            ..f
        }
    }
}

/// Gives the flight a route, unless an end of it is blank. `dest_coords` are
/// the coordinates of the destination, where they are known.
pub fn set_route_from_iata(
    flight: &mut TrackedFlight,
    origin: &str,
    dest: &str,
    dest_coords: Option<(Decimal, Decimal)>,
)
    ensures
        final(flight)@ == routed(old(flight)@, origin@, dest@, dest_coords),
{
    let origin = slice::to_upper(slice::trim(origin).as_str());
    let dest = slice::to_upper(slice::trim(dest).as_str());
    if origin.as_str().is_empty() || dest.as_str().is_empty() {
        return;
    }
    if let Some((lat, lon)) = dest_coords {
        flight.dest_lat = Some(lat);
        flight.dest_lon = Some(lon);
    }
    flight.route = Some((origin, dest));
}

/// Whether the candidate is an address that the flight can take: it has none
/// yet, or the same.
pub open spec fn hex_fits(f: FlightModel, candidate: Seq<char>) -> bool {
    address(candidate) is Some && (f.hex is None || chars::same_ignoring_case(
        f.hex->0,
        address(candidate)->0,
    ))
}

/// The source of the hex once a further source has named it. The first source
/// stays, except that an observation may take over from metadata.
pub open spec fn hex_source_after(
    current: Option<HexSource>,
    source: HexSource,
    promote: bool,
) -> Option<HexSource> {
    if current is None || (source is Adsb && promote && current == Some(
        HexSource::AviationStack,
    )) {
        Some(source)
    } else {
        current
    }
}

/// The flight with a candidate address, where it fits.
pub open spec fn with_hex(
    f: FlightModel,
    candidate: Seq<char>,
    source: HexSource,
    promote: bool,
) -> FlightModel {
    if hex_fits(f, candidate) {
        FlightModel {
            hex: address(candidate),
            hex_source: hex_source_after(f.hex_source, source, promote),
            ..f
        }
    } else {
        f
    }
}

/// Gives the flight an address, unless it is none or the flight has another.
pub fn set_hex_if_consistent(
    flight: &mut TrackedFlight,
    candidate: &str,
    source: HexSource,
    promote_aviationstack_to_adsb: bool,
) -> (b: bool)
    ensures
        b == hex_fits(old(flight)@, candidate@),
        final(flight)@ == with_hex(
            old(flight)@,
            candidate@,
            source,
            promote_aviationstack_to_adsb,
        ),
{
    let hex = match normalize_icao24(candidate) {
        Some(hex) => hex,
        None => return false,
    };
    if let Some(current) = &flight.hex {
        if !slice::eq_ignoring_case(current.as_str(), hex.as_str()) {
            return false;
        }
    }
    flight.hex = Some(hex);
    let take = match flight.hex_source {
        None => true,
        Some(HexSource::AviationStack) => source == HexSource::Adsb
            && promote_aviationstack_to_adsb,
        Some(_) => false,
    };
    if take {
        flight.hex_source = Some(source);
    }
    true
}

/// The operating callsign that metadata gives: the ICAO flight code, else the
/// airline's ICAO code and the flight number.
pub open spec fn operating_callsign(m: MetadataModel) -> Option<Seq<char>> {
    let direct = match m.flight_icao {
        Some(s) => code(s),
        None => None,
    };
    if direct is Some {
        direct
    } else if m.airline_icao is Some && m.flight_number is Some && slice::trimmed(
        m.airline_icao->0,
    ).len() > 0 && slice::trimmed(m.flight_number->0).len() > 0 {
        Some(
            slice::uppercased(slice::trimmed(m.airline_icao->0)) + slice::trimmed(
                m.flight_number->0,
            ),
        )
    } else {
        None
    }
}

/// The operating callsign that metadata gives.
pub fn metadata_callsign(metadata: &AviationstackFlightMetadata) -> (r: Option<String>)
    ensures
        slice::opt_text(r) == operating_callsign(metadata@),
{
    if let Some(icao) = &metadata.flight_icao {
        if let Some(c) = normalize_flight_code(icao.as_str()) {
            return Some(c);
        }
    }
    if let (Some(airline), Some(number)) = (&metadata.airline_icao, &metadata.flight_number) {
        let airline = slice::trim(airline.as_str());
        let number = slice::trim(number.as_str());
        if airline.as_str().is_empty() || number.as_str().is_empty() {
            return None;
        }
        let mut callsign = slice::to_upper(airline.as_str());
        callsign.append(number.as_str());
        return Some(callsign);
    }
    None
}

/// The flight under an operating callsign. Its former callsign stays known as
/// an alias.
pub open spec fn operated_as(f: FlightModel, callsign: Option<Seq<char>>) -> FlightModel {
    match callsign {
        Some(cs) => FlightModel {
            callsign: Some(cs),
            alias_callsigns: with_alias(with_opt_alias(f.alias_callsigns, f.callsign), cs),
            ..f
        },
        None => f,
    }
}

/// The flight with the scheduled departure of the metadata, unless it has one.
pub open spec fn scheduled_by(f: FlightModel, m: MetadataModel) -> FlightModel {
    FlightModel {
        scheduled_departure_at: if f.scheduled_departure_at is Some {
            f.scheduled_departure_at
        } else {
            m.departure_scheduled
        },
        ..f
    }
}

/// The flight with the route of the metadata, where that has both ends.
pub open spec fn routed_by(
    f: FlightModel,
    m: MetadataModel,
    coords: Option<(Decimal, Decimal)>,
) -> FlightModel {
    match (m.departure_iata, m.arrival_iata) {
        (Some(origin), Some(dest)) => routed(f, origin, dest, coords),
        _ => f,
    }
}

/// The flight with the aircraft of the metadata: its address where it fits,
/// and its type where the flight has none.
pub open spec fn flown_by(f: FlightModel, m: MetadataModel) -> FlightModel {
    let addressed = match m.aircraft_icao24 {
        Some(hex) => with_hex(f, hex, HexSource::AviationStack, false),
        None => f,
    };
    FlightModel {
        aircraft_type: match (addressed.aircraft_type, m.aircraft_icao) {
            (None, Some(t)) => Some(slice::uppercased(t)),
            (known, _) => known,
        },
        ..addressed
    }
}

/// The flight with the takeoff of the metadata, where that has one.
pub open spec fn taken_off_by(f: FlightModel, m: MetadataModel) -> FlightModel {
    FlightModel {
        takeoff_at: if m.takeoff_time() is Some {
            m.takeoff_time()
        } else {
            f.takeoff_at
        },
        ..f
    }
}

/// The flight once metadata has been applied to it. A departure, an aircraft
/// type and an address that it has already stay.
pub open spec fn with_metadata(
    f: FlightModel,
    m: MetadataModel,
    coords: Option<(Decimal, Decimal)>,
) -> FlightModel {
    taken_off_by(
        flown_by(
            routed_by(operated_as(scheduled_by(f, m), operating_callsign(m)), m, coords),
            m,
        ),
        m,
    )
}

fn take_callsign(flight: &mut TrackedFlight, metadata: &AviationstackFlightMetadata)
    ensures
        final(flight)@ == operated_as(old(flight)@, operating_callsign(metadata@)),
{
    if let Some(callsign) = metadata_callsign(metadata) {
        if let Some(former) = &flight.callsign {
            push_alias(&mut flight.alias_callsigns, former.as_str());
        }
        push_alias(&mut flight.alias_callsigns, callsign.as_str());
        flight.callsign = Some(callsign);
    }
}

fn take_aircraft(flight: &mut TrackedFlight, metadata: &AviationstackFlightMetadata)
    ensures
        final(flight)@ == flown_by(old(flight)@, metadata@),
{
    if let Some(hex) = &metadata.aircraft_icao24 {
        set_hex_if_consistent(flight, hex.as_str(), HexSource::AviationStack, false);
    }
    if flight.aircraft_type.is_none() {
        if let Some(t) = &metadata.aircraft_icao {
            flight.aircraft_type = Some(slice::to_upper(t.as_str()));
        }
    }
}

fn take_route(
    flight: &mut TrackedFlight,
    metadata: &AviationstackFlightMetadata,
    dest_coords: Option<(Decimal, Decimal)>,
)
    ensures
        final(flight)@ == routed_by(old(flight)@, metadata@, dest_coords),
{
    if let (Some(origin), Some(dest)) = (&metadata.departure_iata, &metadata.arrival_iata) {
        set_route_from_iata(flight, origin.as_str(), dest.as_str(), dest_coords);
    }
}

fn take_schedule(flight: &mut TrackedFlight, metadata: &AviationstackFlightMetadata)
    ensures
        final(flight)@ == scheduled_by(old(flight)@, metadata@),
{
    if flight.scheduled_departure_at.is_none() {
        flight.scheduled_departure_at = metadata.departure_scheduled;
    }
}

fn take_takeoff(flight: &mut TrackedFlight, metadata: &AviationstackFlightMetadata)
    ensures
        final(flight)@ == taken_off_by(old(flight)@, metadata@),
{
    if let Some(t) = metadata.takeoff_time() {
        flight.takeoff_at = Some(t);
    }
}

/// Applies metadata to the flight. `dest_coords` are the coordinates of the
/// airport of arrival, where they are known.
pub fn apply_aviationstack_metadata(
    flight: &mut TrackedFlight,
    metadata: &AviationstackFlightMetadata,
    dest_coords: Option<(Decimal, Decimal)>,
)
    ensures
        final(flight)@ == with_metadata(old(flight)@, metadata@, dest_coords),
{
    take_schedule(flight, metadata);
    take_callsign(flight, metadata);
    take_route(flight, metadata, dest_coords);
    take_aircraft(flight, metadata);
    take_takeoff(flight, metadata);
}

/// Metadata inside the calendar keeps a flight inside the calendar.
pub proof fn law_metadata_stays_in_the_calendar(
    f: FlightModel,
    m: MetadataModel,
    coords: Option<(Decimal, Decimal)>,
)
    requires
        f.valid(),
        m.valid(),
    ensures
        with_metadata(f, m, coords).valid(),
{
}

/// A callsign under which metadata puts a flight is known as an alias from
/// then on, and so is every alias from before.
pub proof fn law_metadata_keeps_aliases(
    f: FlightModel,
    m: MetadataModel,
    coords: Option<(Decimal, Decimal)>,
)
    ensures
        f.alias_callsigns.is_prefix_of(with_metadata(f, m, coords).alias_callsigns),
        operating_callsign(m) is Some ==> with_metadata(f, m, coords).callsign
            == operating_callsign(m),
{
}

/// Metadata never replaces the address of a flight by another one.
pub proof fn law_metadata_keeps_address(
    f: FlightModel,
    m: MetadataModel,
    coords: Option<(Decimal, Decimal)>,
)
    requires
        f.hex is Some,
    ensures
        with_metadata(f, m, coords).hex is Some,
        chars::same_ignoring_case(f.hex->0, with_metadata(f, m, coords).hex->0),
{
}

} // verus!
