//! The chat messages of the flight tracker.

use vstd::prelude::*;
use vstd::string::StringExecFns;

use super::{FlightModel, TargetConfirmation, TrackedFlight};
use crate::aviation::types::{AviationstackFlightMetadata, MetadataModel};
use crate::decimal::Decimal;
use crate::text::{chars, number, slice};
use crate::time;
use crate::time::Timestamp;

verus! {

/// The minutes of a span beyond its whole hours, with its sign.
pub open spec fn odd_minutes(secs: int) -> int {
    if secs >= 0 {
        (secs / 60) % 60
    } else {
        -(((-secs) / 60) % 60)
    }
}

/// A span in hours and minutes. Only minutes are shown below one hour.
pub open spec fn span_text(secs: int) -> Seq<char> {
    if secs >= 3600 {
        number::decimal(secs / 3600) + "h"@ + number::two_digits((odd_minutes(secs)) as nat) + "m"@
    } else {
        number::decimal(odd_minutes(secs)) + "m"@
    }
}

/// The span between two instants in hours and minutes.
pub open spec fn elapsed_text(from: Timestamp, to: Timestamp) -> Seq<char> {
    span_text(time::whole_seconds(to.spec_since(from)))
}

/// A span of whole seconds in hours and minutes.
pub fn format_duration_hm(secs: i64) -> (r: String)
    requires
        secs > i64::MIN,
    ensures
        r@ == span_text(secs as int),
{
    if secs >= 3600 {
        let mut r = number::decimal_text(secs / 3600);
        r.append("h");
        r.append(number::two_digit_text(((secs / 60) % 60) as u64).as_str());
        r.append("m");
        r
    } else {
        let mins: i64 = if secs >= 0 {
            (secs / 60) % 60
        } else {
            -(((-secs) / 60) % 60)
        };
        let mut r = number::decimal_text(mins);
        r.append("m");
        r
    }
}

fn elapsed(from: Timestamp, to: Timestamp) -> (r: String)
    requires
        from.valid(),
        to.valid(),
    ensures
        r@ == elapsed_text(from, to),
{
    format_duration_hm(to.secs_since(from))
}

/// An altitude: a flight level from 1000 ft on.
pub open spec fn altitude_text(alt_ft: Option<i64>) -> Seq<char> {
    match alt_ft {
        Some(ft) => if ft >= 1000 {
            "FL"@ + number::decimal(ft as int / 100)
        } else {
            number::decimal(ft as int) + "ft"@
        },
        None => "?"@,
    }
}

/// An altitude: a flight level from 1000 ft on.
pub fn format_alt(alt_ft: Option<i64>) -> (r: String)
    ensures
        r@ == altitude_text(alt_ft),
{
    match alt_ft {
        Some(ft) => {
            if ft >= 1000 {
                let mut r = "FL".to_owned();
                r.append(number::decimal_text(ft / 100).as_str());
                r
            } else {
                let mut r = number::decimal_text(ft);
                r.append("ft");
                r
            }
        },
        None => "?".to_owned(),
    }
}

/// Origin and destination with an arrow between them.
pub open spec fn route_text(route: Option<(Seq<char>, Seq<char>)>) -> Seq<char> {
    match route {
        Some((orig, dest)) => orig + "\u{2192}"@ + dest,
        None => "?"@,
    }
}

/// Origin and destination with an arrow between them.
pub fn format_route(route: &Option<(String, String)>) -> (r: String)
    ensures
        r@ == route_text(super::route_model(*route)),
{
    match route {
        Some((orig, dest)) => {
            let mut r = orig.clone();
            r.append("\u{2192}");
            r.append(dest.as_str());
            r
        },
        None => "?".to_owned(),
    }
}

/// A known route behind a space.
pub open spec fn route_suffix(route: Option<(Seq<char>, Seq<char>)>) -> Seq<char> {
    if route is Some {
        " "@ + route_text(route)
    } else {
        Seq::empty()
    }
}

/// A known route behind a space.
pub fn format_route_suffix(route: &Option<(String, String)>) -> (r: String)
    ensures
        r@ == route_suffix(super::route_model(*route)),
{
    match route {
        Some(_) => {
            let mut r = " ".to_owned();
            r.append(format_route(route).as_str());
            r
        },
        None => String::new(),
    }
}

/// A value without padding, unless it is blank.
pub open spec fn shown(value: Option<Seq<char>>) -> Option<Seq<char>> {
    match value {
        Some(s) => if slice::trimmed(s).len() == 0 {
            None
        } else {
            Some(slice::trimmed(s))
        },
        None => None,
    }
}

/// A value without padding, unless it is blank.
pub fn present(value: Option<&str>) -> (r: Option<String>)
    ensures
        slice::opt_text(r) == shown(slice::opt_str(value)),
{
    match value {
        Some(s) => {
            let t = slice::trim(s);
            if t.as_str().is_empty() {
                None
            } else {
                Some(t)
            }
        },
        None => None,
    }
}

pub open spec fn not_blank(value: Option<Seq<char>>) -> bool {
    value is Some && slice::trimmed(value->0).len() > 0
}

/// The first of three values that is not blank, as it is.
pub open spec fn first_of(
    a: Option<Seq<char>>,
    b: Option<Seq<char>>,
    c: Option<Seq<char>>,
) -> Option<Seq<char>> {
    if not_blank(a) {
        a
    } else if not_blank(b) {
        b
    } else if not_blank(c) {
        c
    } else {
        None
    }
}

fn is_present(value: Option<&str>) -> (b: bool)
    ensures
        b == not_blank(slice::opt_str(value)),
{
    match value {
        Some(s) => !slice::is_blank(s),
        None => false,
    }
}

/// The first of three values that is not blank, as it is.
pub fn first_present<'a>(a: Option<&'a str>, b: Option<&'a str>, c: Option<&'a str>) -> (r: Option<
    &'a str,
>)
    ensures
        slice::opt_str(r) == first_of(slice::opt_str(a), slice::opt_str(b), slice::opt_str(c)),
{
    if is_present(a) {
        a
    } else if is_present(b) {
        b
    } else if is_present(c) {
        c
    } else {
        None
    }
}

/// An optional part of a message as a list.
pub open spec fn opt_part(part: Option<Seq<char>>) -> Seq<Seq<char>> {
    match part {
        Some(p) => seq![p],
        None => Seq::empty(),
    }
}

/// `prefix` and the value, where there is one.
pub open spec fn labelled(prefix: Seq<char>, value: Option<Seq<char>>) -> Option<Seq<char>> {
    match value {
        Some(v) => Some(prefix + v),
        None => None,
    }
}

fn label(prefix: &str, value: Option<String>) -> (r: Option<String>)
    ensures
        slice::opt_text(r) == labelled(prefix@, slice::opt_text(value)),
{
    match value {
        Some(v) => {
            let mut r = prefix.to_owned();
            r.append(v.as_str());
            Some(r)
        },
        None => None,
    }
}

fn push_part(parts: &mut Vec<String>, part: Option<String>)
    ensures
        slice::texts(final(parts)@) == slice::texts(old(parts)@) + opt_part(slice::opt_text(part)),
{
    match part {
        Some(p) => {
            let ghost text = p@;
            parts.push(p);
            assert(slice::texts(parts@) =~= slice::texts(old(parts)@) + seq![text]);
        },
        None => {
            assert(slice::texts(parts@) =~= slice::texts(old(parts)@) + Seq::<Seq<char>>::empty());
        },
    }
}

/// An airport by the best name that is known, with terminal and gate.
pub open spec fn airport_text(
    iata: Option<Seq<char>>,
    icao: Option<Seq<char>>,
    airport: Option<Seq<char>>,
    terminal: Option<Seq<char>>,
    gate: Option<Seq<char>>,
) -> Seq<char> {
    slice::joined(
        seq![
            match first_of(iata, icao, airport) {
                Some(s) => slice::trimmed(s),
                None => "?"@,
            },
        ] + opt_part(labelled("T"@, shown(terminal))) + opt_part(labelled("Gate "@, shown(gate))),
        " "@,
    )
}

/// An airport by the best name that is known, with terminal and gate.
pub fn format_airport(
    iata: Option<&str>,
    icao: Option<&str>,
    airport: Option<&str>,
    terminal: Option<&str>,
    gate: Option<&str>,
) -> (r: String)
    ensures
        r@ == airport_text(
            slice::opt_str(iata),
            slice::opt_str(icao),
            slice::opt_str(airport),
            slice::opt_str(terminal),
            slice::opt_str(gate),
        ),
{
    let name = match first_present(iata, icao, airport) {
        Some(s) => slice::trim(s),
        None => "?".to_owned(),
    };
    let mut parts: Vec<String> = Vec::new();
    let ghost text = name@;
    parts.push(name);
    assert(slice::texts(parts@) =~= seq![text]);
    push_part(&mut parts, label("T", present(terminal)));
    push_part(&mut parts, label("Gate ", present(gate)));
    slice::join(&parts, " ")
}

/// A delay in minutes, where there is one.
pub open spec fn delay_text(label: Seq<char>, delay: Option<i64>) -> Option<Seq<char>> {
    match delay {
        Some(n) => if n > 0 {
            Some(label + " delay: "@ + number::decimal(n as int) + "m"@)
        } else {
            None
        },
        None => None,
    }
}

/// A delay in minutes, where there is one.
pub fn delay_part(label: &str, delay: Option<i64>) -> (r: Option<String>)
    ensures
        slice::opt_text(r) == delay_text(label@, delay),
{
    match delay {
        Some(n) => {
            if n > 0 {
                let mut r = label.to_owned();
                r.append(" delay: ");
                r.append(number::decimal_text(n).as_str());
                r.append("m");
                Some(r)
            } else {
                None
            }
        },
        None => None,
    }
}

/// The first of the instants that is known.
pub open spec fn first_time(a: Option<Timestamp>, b: Option<Timestamp>) -> Option<Timestamp> {
    if a is Some {
        a
    } else {
        b
    }
}

/// The UTC hour and minute of a known instant.
pub open spec fn opt_clock(t: Option<Timestamp>) -> Option<Seq<char>> {
    match t {
        Some(t) => Some(t.utc_clock_text()),
        None => None,
    }
}

/// The UTC hour and minute of a known instant.
pub fn format_time(value: Option<Timestamp>) -> (r: Option<String>)
    requires
        value is Some ==> value->0.valid(),
    ensures
        slice::opt_text(r) == opt_clock(value),
{
    match value {
        Some(t) => Some(t.utc_clock()),
        None => None,
    }
}

fn or_time(a: Option<Timestamp>, b: Option<Timestamp>) -> (r: Option<Timestamp>)
    ensures
        r == first_time(a, b),
{
    match a {
        Some(t) => Some(t),
        None => b,
    }
}

impl MetadataModel {
    /// The name of the flight and of the airline.
    pub open spec fn headline(self) -> Seq<char> {
        let flight = match first_of(self.flight_iata, self.flight_icao, self.flight_number) {
            Some(s) => s,
            None => "Flight"@,
        };
        match shown(self.airline_name) {
            Some(name) => flight + " "@ + name,
            None => flight,
        }
    }

    /// Both airports.
    pub open spec fn itinerary(self) -> Seq<char> {
        airport_text(
            self.departure_iata,
            self.departure_icao,
            self.departure_airport,
            self.departure_terminal,
            self.departure_gate,
        ) + " -> "@ + airport_text(
            self.arrival_iata,
            self.arrival_icao,
            self.arrival_airport,
            self.arrival_terminal,
            self.arrival_gate,
        )
    }

    /// The best known time of departure.
    pub open spec fn departure_time(self) -> Option<Timestamp> {
        first_time(
            self.departure_actual_runway,
            first_time(
                self.departure_actual,
                first_time(self.departure_estimated, self.departure_scheduled),
            ),
        )
    }

    /// The best known time of arrival.
    pub open spec fn arrival_time(self) -> Option<Timestamp> {
        first_time(
            self.arrival_actual,
            first_time(self.arrival_estimated, self.arrival_scheduled),
        )
    }

    /// The type and registration of the aircraft.
    pub open spec fn airframe(self) -> Option<Seq<char>> {
        let parts = opt_part(shown(self.aircraft_icao)) + opt_part(
            shown(self.aircraft_registration),
        );
        if parts.len() == 0 {
            None
        } else {
            Some(slice::joined(parts, " "@))
        }
    }

    /// The address of the aircraft in upper case.
    pub open spec fn address_text(self) -> Option<Seq<char>> {
        match shown(self.aircraft_icao24) {
            Some(s) => Some(slice::uppercased(s)),
            None => None,
        }
    }

    /// The parts of a summary. What is not known is left out.
    pub open spec fn info_parts(self) -> Seq<Seq<char>> {
        seq![self.headline(), self.itinerary()] + opt_part(
            labelled("Dep: "@, opt_clock(self.departure_time())),
        ) + opt_part(labelled("Arr: "@, opt_clock(self.arrival_time()))) + opt_part(
            labelled("Baggage: "@, shown(self.arrival_baggage)),
        ) + opt_part(delay_text("Dep"@, self.departure_delay_minutes)) + opt_part(
            delay_text("Arr"@, self.arrival_delay_minutes),
        ) + opt_part(labelled("Status: "@, shown(self.flight_status))) + opt_part(
            labelled("Aircraft: "@, self.airframe()),
        ) + opt_part(labelled("ICAO24: "@, self.address_text()))
    }

    /// The summary of the metadata.
    pub open spec fn info_text(self) -> Seq<char> {
        slice::joined(self.info_parts(), " | "@)
    }
}

fn headline(metadata: &AviationstackFlightMetadata) -> (r: String)
    ensures
        r@ == metadata@.headline(),
{
    let flight = match first_present(
        slice::borrow(&metadata.flight_iata),
        slice::borrow(&metadata.flight_icao),
        slice::borrow(&metadata.flight_number),
    ) {
        Some(s) => s,
        None => "Flight",
    };
    let mut r = flight.to_owned();
    if let Some(name) = present(slice::borrow(&metadata.airline_name)) {
        r.append(" ");
        r.append(name.as_str());
    }
    r
}

fn itinerary(metadata: &AviationstackFlightMetadata) -> (r: String)
    ensures
        r@ == metadata@.itinerary(),
{
    let mut r = format_airport(
        slice::borrow(&metadata.departure_iata),
        slice::borrow(&metadata.departure_icao),
        slice::borrow(&metadata.departure_airport),
        slice::borrow(&metadata.departure_terminal),
        slice::borrow(&metadata.departure_gate),
    );
    r.append(" -> ");
    r.append(
        format_airport(
            slice::borrow(&metadata.arrival_iata),
            slice::borrow(&metadata.arrival_icao),
            slice::borrow(&metadata.arrival_airport),
            slice::borrow(&metadata.arrival_terminal),
            slice::borrow(&metadata.arrival_gate),
        ).as_str(),
    );
    r
}

fn airframe(metadata: &AviationstackFlightMetadata) -> (r: Option<String>)
    ensures
        slice::opt_text(r) == metadata@.airframe(),
{
    let mut parts: Vec<String> = Vec::new();
    assert(slice::texts(parts@) =~= Seq::<Seq<char>>::empty());
    push_part(&mut parts, present(slice::borrow(&metadata.aircraft_icao)));
    push_part(&mut parts, present(slice::borrow(&metadata.aircraft_registration)));
    proof {
        let known = opt_part(shown(metadata@.aircraft_icao)) + opt_part(
            shown(metadata@.aircraft_registration),
        );
        assert(slice::texts(parts@) =~= known);
    }
    if parts.len() == 0 {
        None
    } else {
        Some(slice::join(&parts, " "))
    }
}

/// The summary of the metadata.
pub fn msg_aviationstack_info(metadata: &AviationstackFlightMetadata) -> (r: String)
    requires
        metadata@.valid(),
    ensures
        r@ == metadata@.info_text(),
{
    let mut parts: Vec<String> = Vec::new();
    parts.push(headline(metadata));
    parts.push(itinerary(metadata));
    assert(slice::texts(parts@) =~= seq![metadata@.headline(), metadata@.itinerary()]);
    let dep = or_time(
        metadata.departure_actual_runway,
        or_time(
            metadata.departure_actual,
            or_time(metadata.departure_estimated, metadata.departure_scheduled),
        ),
    );
    let arr = or_time(
        metadata.arrival_actual,
        or_time(metadata.arrival_estimated, metadata.arrival_scheduled),
    );
    push_part(&mut parts, label("Dep: ", format_time(dep)));
    push_part(&mut parts, label("Arr: ", format_time(arr)));
    push_part(&mut parts, label("Baggage: ", present(slice::borrow(&metadata.arrival_baggage))));
    push_part(&mut parts, delay_part("Dep", metadata.departure_delay_minutes));
    push_part(&mut parts, delay_part("Arr", metadata.arrival_delay_minutes));
    push_part(&mut parts, label("Status: ", present(slice::borrow(&metadata.flight_status))));
    push_part(&mut parts, label("Aircraft: ", airframe(metadata)));
    let icao24 = match present(slice::borrow(&metadata.aircraft_icao24)) {
        Some(s) => Some(slice::to_upper(s.as_str())),
        None => None,
    };
    push_part(&mut parts, label("ICAO24: ", icao24));
    slice::join(&parts, " | ")
}

/// A link to a map with the aircraft, where its address is known.
pub open spec fn link_suffix(hex: Option<Seq<char>>) -> Seq<char> {
    match shown(hex) {
        Some(h) => " | https://globe.adsbexchange.com/?icao="@ + chars::ascii_lowered(h),
        None => Seq::empty(),
    }
}

/// A link to a map with the aircraft, where its address is known.
pub fn format_adsb_link_suffix(hex: Option<&str>) -> (r: String)
    ensures
        r@ == link_suffix(slice::opt_str(hex)),
{
    match present(hex) {
        Some(h) => {
            let mut r = " | https://globe.adsbexchange.com/?icao=".to_owned();
            r.append(slice::to_ascii_lower(h.as_str()).as_str());
            r
        },
        None => String::new(),
    }
}

impl FlightModel {
    /// The name, aircraft type and route of the flight.
    pub open spec fn prefix(self) -> Seq<char> {
        let named = match self.aircraft_type {
            Some(t) => self.label() + " ("@ + t + ")"@,
            None => self.label(),
        };
        named + route_suffix(self.route)
    }
}

/// The name, aircraft type and route of the flight.
pub fn format_flight_prefix(flight: &TrackedFlight) -> (r: String)
    ensures
        r@ == flight@.prefix(),
{
    let mut r = flight.label().to_owned();
    if let Some(t) = &flight.aircraft_type {
        r.append(" (");
        r.append(t.as_str());
        r.append(")");
    }
    r.append(format_route_suffix(&flight.route).as_str());
    r
}

pub open spec fn track_started_text(f: FlightModel) -> Seq<char> {
    "Tracking gestartet: "@ + f.prefix() + " | Status: aktiv"@ + link_suffix(f.hex)
}

pub fn msg_track_started(flight: &TrackedFlight) -> (r: String)
    ensures
        r@ == track_started_text(flight@),
{
    let mut r = "Tracking gestartet: ".to_owned();
    r.append(format_flight_prefix(flight).as_str());
    r.append(" | Status: aktiv");
    r.append(format_adsb_link_suffix(slice::borrow(&flight.hex)).as_str());
    r
}

pub fn msg_takeoff(flight: &TrackedFlight) -> (r: String)
    ensures
        r@ == flight@.prefix() + " ist gestartet! \u{2708}"@,
{
    let mut r = format_flight_prefix(flight);
    r.append(" ist gestartet! \u{2708}");
    r
}

pub fn msg_cruise(flight: &TrackedFlight) -> (r: String)
    ensures
        r@ == flight@.prefix() + " cruist auf "@ + altitude_text(flight@.altitude_ft),
{
    let mut r = format_flight_prefix(flight);
    r.append(" cruist auf ");
    r.append(format_alt(flight.altitude_ft).as_str());
    r
}

pub fn msg_descent(flight: &TrackedFlight) -> (r: String)
    ensures
        r@ == flight@.prefix() + " hat Descent eingeleitet"@,
{
    let mut r = format_flight_prefix(flight);
    r.append(" hat Descent eingeleitet");
    r
}

pub fn msg_approach(flight: &TrackedFlight) -> (r: String)
    ensures
        r@ == flight@.prefix() + " ist im Approach"@,
{
    let mut r = format_flight_prefix(flight);
    r.append(" ist im Approach");
    r
}

pub open spec fn landing_text(f: FlightModel, takeoff_at: Option<Timestamp>, now: Timestamp) -> Seq<
    char,
> {
    match takeoff_at {
        Some(t) => f.prefix() + " ist gelandet! Flugzeit: "@ + elapsed_text(t, now),
        None => f.prefix()
            + " ist gelandet! Flugzeit: unbekannt (Takeoff nicht beobachtet)"@,
    }
}

pub fn msg_landing(flight: &TrackedFlight, takeoff_at: Option<Timestamp>, now: Timestamp) -> (r:
    String)
    requires
        takeoff_at is Some ==> takeoff_at->0.valid(),
        now.valid(),
    ensures
        r@ == landing_text(flight@, takeoff_at, now),
{
    let mut r = format_flight_prefix(flight);
    match takeoff_at {
        Some(t) => {
            r.append(" ist gelandet! Flugzeit: ");
            r.append(elapsed(t, now).as_str());
        },
        None => {
            r.append(" ist gelandet! Flugzeit: unbekannt (Takeoff nicht beobachtet)");
        },
    }
    r
}

pub open spec fn squawk_text(f: FlightModel, code: Seq<char>, meaning: Seq<char>) -> Seq<char> {
    "\u{26a0} "@ + f.prefix() + " squawkt "@ + code + "! ("@ + meaning + ")"@
}

pub fn msg_squawk_emergency(flight: &TrackedFlight, code: &str, meaning: &str) -> (r: String)
    ensures
        r@ == squawk_text(flight@, code@, meaning@),
{
    let mut r = "\u{26a0} ".to_owned();
    r.append(format_flight_prefix(flight).as_str());
    r.append(" squawkt ");
    r.append(code);
    r.append("! (");
    r.append(meaning);
    r.append(")");
    r
}

pub fn msg_possible_divert(flight: &TrackedFlight) -> (r: String)
    ensures
        r@ == "\u{26a0} "@ + flight@.prefix() + " scheint zu diverten!"@,
{
    let mut r = "\u{26a0} ".to_owned();
    r.append(format_flight_prefix(flight).as_str());
    r.append(" scheint zu diverten!");
    r
}

pub fn msg_tracking_lost(flight: &TrackedFlight) -> (r: String)
    ensures
        r@ == "Tracking lost: "@ + flight@.prefix()
            + " | Status: automatisch entfernt | Grund: kein ADS-B Signal mehr"@,
{
    let mut r = "Tracking lost: ".to_owned();
    r.append(format_flight_prefix(flight).as_str());
    r.append(" | Status: automatisch entfernt | Grund: kein ADS-B Signal mehr");
    r
}

pub fn msg_adsb_visible(flight: &TrackedFlight) -> (r: String)
    ensures
        r@ == flight@.prefix() + " ist jetzt im ADS-B sichtbar"@,
{
    let mut r = format_flight_prefix(flight);
    r.append(" ist jetzt im ADS-B sichtbar");
    r
}

pub open spec fn pending_expired_text(f: FlightModel) -> Seq<char> {
    "Tracking automatisch entfernt: "@ + f.prefix()
        + " | Status: nicht erschienen | Grund: nie im ADS-B gesehen"@
}

pub fn msg_pending_expired(flight: &TrackedFlight) -> (r: String)
    ensures
        r@ == pending_expired_text(flight@),
{
    let mut r = "Tracking automatisch entfernt: ".to_owned();
    r.append(format_flight_prefix(flight).as_str());
    r.append(" | Status: nicht erschienen | Grund: nie im ADS-B gesehen");
    r
}

/// A ground speed in whole knots.
pub open spec fn speed_text(gs: Option<Decimal>) -> Option<Seq<char>> {
    match gs {
        Some(d) => Some(d.whole_text() + "kt"@),
        None => None,
    }
}

fn speed(gs: Option<Decimal>) -> (r: Option<String>)
    ensures
        slice::opt_text(r) == speed_text(gs),
{
    match gs {
        Some(d) => {
            let mut r = d.to_whole_text();
            r.append("kt");
            Some(r)
        },
        None => None,
    }
}

pub open spec fn or_text(o: Option<Seq<char>>, default: Seq<char>) -> Seq<char> {
    match o {
        Some(s) => s,
        None => default,
    }
}

fn text_or(o: Option<String>, default: &str) -> (r: String)
    ensures
        r@ == or_text(slice::opt_text(o), default@),
{
    match o {
        Some(s) => s,
        None => default.to_owned(),
    }
}

/// The answer to a status question while the aircraft is visible but not taken
/// for the flight.
pub open spec fn visible_status_text(f: FlightModel, now: Timestamp) -> Seq<char> {
    f.prefix() + " | Aircraft sichtbar, Zielflug noch nicht bestätigt"@ + or_text(
        labelled(" | ADS-B aktuell "@, f.observed_callsign),
        Seq::empty(),
    ) + " | seit "@ + elapsed_text(f.tracked_at, now) + " getrackt"@ + link_suffix(f.hex)
}

/// The time since the last confirmed sighting.
pub open spec fn last_seen_text(f: FlightModel, now: Timestamp) -> Seq<char> {
    match f.last_seen {
        Some(t) => "vor "@ + elapsed_text(t, now),
        None => "nie"@,
    }
}

/// The answer to a status question.
pub open spec fn status_text(f: FlightModel, now: Timestamp) -> Seq<char> {
    if f.target_confirmation is AircraftVisible {
        visible_status_text(f, now)
    } else {
        f.prefix() + " | Phase: "@ + f.phase.name() + " | Höhe: "@ + altitude_text(f.altitude_ft)
            + " | Geschwindigkeit: "@ + or_text(speed_text(f.ground_speed_kts), "?"@)
            + " | Route: "@ + route_text(f.route) + " | Letzte Sichtung: "@ + last_seen_text(f, now)
            + or_text(labelled(" | Squawk "@, f.squawk), Seq::empty()) + " | Status: seit "@
            + elapsed_text(f.tracked_at, now) + " getrackt"@ + link_suffix(f.hex)
    }
}

/// The answer to a status question.
pub fn msg_flight_status(flight: &TrackedFlight, now: Timestamp) -> (r: String)
    requires
        flight@.valid(),
        now.valid(),
    ensures
        r@ == status_text(flight@, now),
{
    let mut r = format_flight_prefix(flight);
    let link = format_adsb_link_suffix(slice::borrow(&flight.hex));
    let since = elapsed(flight.tracked_at, now);
    if flight.target_confirmation == TargetConfirmation::AircraftVisible {
        r.append(" | Aircraft sichtbar, Zielflug noch nicht bestätigt");
        let observed = label(" | ADS-B aktuell ", slice::clone_opt(&flight.observed_callsign));
        let none = String::new();
        r.append(text_or(observed, none.as_str()).as_str());
        r.append(" | seit ");
        r.append(since.as_str());
        r.append(" getrackt");
        r.append(link.as_str());
        return r;
    }
    r.append(" | Phase: ");
    r.append(flight.phase.to_text());
    r.append(" | Höhe: ");
    r.append(format_alt(flight.altitude_ft).as_str());
    r.append(" | Geschwindigkeit: ");
    r.append(text_or(speed(flight.ground_speed_kts), "?").as_str());
    r.append(" | Route: ");
    r.append(format_route(&flight.route).as_str());
    r.append(" | Letzte Sichtung: ");
    let seen = match flight.last_seen {
        Some(t) => {
            let mut s = "vor ".to_owned();
            s.append(elapsed(t, now).as_str());
            s
        },
        None => "nie".to_owned(),
    };
    r.append(seen.as_str());
    let none = String::new();
    r.append(text_or(label(" | Squawk ", slice::clone_opt(&flight.squawk)), none.as_str()).as_str());
    r.append(" | Status: seit ");
    r.append(since.as_str());
    r.append(" getrackt");
    r.append(link.as_str());
    r
}

/// One flight of the list of flights.
pub open spec fn list_entry(f: FlightModel) -> Seq<char> {
    f.label() + ": "@ + f.shown_phase() + " "@ + altitude_text(f.altitude_ft) + or_text(
        labelled(" "@, speed_text(f.ground_speed_kts)),
        Seq::empty(),
    ) + " "@ + route_text(f.route)
}

impl FlightModel {
    /// The phase that is shown: an aircraft that is not taken for the flight
    /// has none.
    pub open spec fn shown_phase(self) -> Seq<char> {
        if self.target_confirmation is AircraftVisible {
            "AircraftVisible"@
        } else {
            self.phase.name()
        }
    }
}

impl TrackedFlight {
    /// The phase that is shown.
    pub fn shown_phase(&self) -> (r: &'static str)
        ensures
            r@ == self@.shown_phase(),
    {
        if self.target_confirmation == TargetConfirmation::AircraftVisible {
            "AircraftVisible"
        } else {
            self.phase.to_text()
        }
    }
}

fn format_list_entry(f: &TrackedFlight) -> (r: String)
    ensures
        r@ == list_entry(f@),
{
    let mut r = f.label().to_owned();
    r.append(": ");
    r.append(f.shown_phase());
    r.append(" ");
    r.append(format_alt(f.altitude_ft).as_str());
    let none = String::new();
    r.append(text_or(label(" ", speed(f.ground_speed_kts)), none.as_str()).as_str());
    r.append(" ");
    r.append(format_route(&f.route).as_str());
    r
}

/// The list of all tracked flights.
pub open spec fn list_text(flights: Seq<FlightModel>) -> Seq<char> {
    if flights.len() == 0 {
        "Keine Fl\u{00fc}ge getrackt"@
    } else {
        "Aktive Tracks: "@ + slice::joined(
            flights.map_values(|f: FlightModel| list_entry(f)),
            " | "@,
        )
    }
}

/// The list of all tracked flights.
pub fn msg_flights_list(flights: &[TrackedFlight]) -> (r: String)
    ensures
        r@ == list_text(super::flight_models(flights@)),
{
    if flights.len() == 0 {
        return "Keine Fl\u{00fc}ge getrackt".to_owned();
    }
    let mut parts: Vec<String> = Vec::new();
    let mut i: usize = 0;
    let ghost goal = super::flight_models(flights@).map_values(|f: FlightModel| list_entry(f));
    while i < flights.len()
        invariant
            i <= flights@.len(),
            goal == super::flight_models(flights@).map_values(|f: FlightModel| list_entry(f)),
            parts@.len() == i,
            forall|j: int| 0 <= j < i ==> (#[trigger] parts@[j])@ == goal[j],
        decreases flights@.len() - i,
    {
        parts.push(format_list_entry(&flights[i]));
        i = i + 1;
    }
    assert(slice::texts(parts@) =~= goal);
    let mut r = "Aktive Tracks: ".to_owned();
    r.append(slice::join(&parts, " | ").as_str());
    r
}

} // verus!
