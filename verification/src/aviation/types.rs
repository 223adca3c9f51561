//! Aircraft observations and flight metadata.

use vstd::prelude::*;

use crate::decimal::Decimal;
use crate::text::slice;
use crate::time;
use crate::time::Timestamp;

verus! {

/// The barometric altitude that an aircraft reports.
#[derive(Clone, Copy, Debug, PartialEq, Eq, Structural)]
pub enum AltBaro {
    Feet(i64),
    Ground,
}

impl AltBaro {
    /// The altitude that a report gives as a number, in whole feet. Anything
    /// else stands for an aircraft on the ground.
    pub fn from_report(feet: Option<i64>) -> (r: AltBaro)
        ensures
            r == match feet {
                Some(n) => AltBaro::Feet(n),
                None => AltBaro::Ground,
            },
    {
        match feet {
            Some(n) => AltBaro::Feet(n),
            None => AltBaro::Ground,
        }
    }
}

/// One aircraft as an aggregator reports it.
#[derive(Debug)]
pub struct NearbyAircraft {
    /// ICAO24 address.
    pub hex: Option<String>,
    /// Callsign as transmitted, padded with spaces.
    pub flight: Option<String>,
    /// Registration.
    pub r: Option<String>,
    /// Type designator.
    pub t: Option<String>,
    pub alt_baro: Option<AltBaro>,
    pub lat: Option<Decimal>,
    pub lon: Option<Decimal>,
    /// Ground speed in knots.
    pub gs: Option<Decimal>,
    pub baro_rate: Option<i64>,
    pub geom_rate: Option<i64>,
    pub squawk: Option<String>,
    pub nav_modes: Option<Vec<String>>,
    /// Signal strength in dBFS.
    pub rssi: Option<Decimal>,
    /// Age of the position in seconds.
    pub seen_pos: Option<Decimal>,
}

/// What an aircraft report holds.
pub struct AircraftModel {
    pub hex: Option<Seq<char>>,
    pub flight: Option<Seq<char>>,
    pub r: Option<Seq<char>>,
    pub t: Option<Seq<char>>,
    pub alt_baro: Option<AltBaro>,
    pub lat: Option<Decimal>,
    pub lon: Option<Decimal>,
    pub gs: Option<Decimal>,
    pub baro_rate: Option<i64>,
    pub geom_rate: Option<i64>,
    pub squawk: Option<Seq<char>>,
    pub nav_modes: Option<Seq<Seq<char>>>,
    pub rssi: Option<Decimal>,
    pub seen_pos: Option<Decimal>,
}

impl View for NearbyAircraft {
    type V = AircraftModel;

    open spec fn view(&self) -> AircraftModel {
        AircraftModel {
            hex: slice::opt_text(self.hex),
            flight: slice::opt_text(self.flight),
            r: slice::opt_text(self.r),
            t: slice::opt_text(self.t),
            alt_baro: self.alt_baro,
            lat: self.lat,
            lon: self.lon,
            gs: self.gs,
            baro_rate: self.baro_rate,
            geom_rate: self.geom_rate,
            squawk: slice::opt_text(self.squawk),
            nav_modes: match self.nav_modes {
                Some(v) => Some(slice::texts(v@)),
                None => None,
            },
            rssi: self.rssi,
            seen_pos: self.seen_pos,
        }
    }
}

impl AircraftModel {
    /// The callsign that the aircraft transmits, without its padding.
    pub open spec fn callsign(self) -> Option<Seq<char>> {
        match self.flight {
            Some(s) => if slice::trimmed(s).len() == 0 {
                None
            } else {
                Some(slice::trimmed(s))
            },
            None => None,
        }
    }
}

impl NearbyAircraft {
    /// The callsign that the aircraft transmits, without its padding.
    pub fn aircraft_callsign(&self) -> (r: Option<String>)
        ensures
            slice::opt_text(r) == self@.callsign(),
    {
        match &self.flight {
            Some(s) => {
                let t = slice::trim(s.as_str());
                if t.as_str().is_empty() {
                    None
                } else {
                    Some(t)
                }
            },
            None => None,
        }
    }

    /// A copy of the report.
    pub fn duplicate(&self) -> (r: NearbyAircraft)
        ensures
            r@ == self@,
    {
        NearbyAircraft {
            hex: slice::clone_opt(&self.hex),
            flight: slice::clone_opt(&self.flight),
            r: slice::clone_opt(&self.r),
            t: slice::clone_opt(&self.t),
            alt_baro: self.alt_baro,
            lat: self.lat,
            lon: self.lon,
            gs: self.gs,
            baro_rate: self.baro_rate,
            geom_rate: self.geom_rate,
            squawk: slice::clone_opt(&self.squawk),
            nav_modes: match &self.nav_modes {
                Some(v) => Some(slice::clone_texts(v)),
                None => None,
            },
            rssi: self.rssi,
            seen_pos: self.seen_pos,
        }
    }
}

#[derive(Debug)]
pub struct FlightRoute {
    pub origin: Airport,
    pub destination: Airport,
}

#[derive(Debug)]
pub struct Airport {
    pub iata_code: String,
}

#[derive(Debug)]
pub struct AviationstackFlight {
    pub flight_date: Option<String>,
    pub flight_status: Option<String>,
    pub flight: Option<AviationstackFlightIdentity>,
    pub airline: Option<AviationstackAirline>,
    pub departure: Option<AviationstackDeparture>,
    pub arrival: Option<AviationstackArrival>,
    pub aircraft: Option<AviationstackAircraft>,
}

#[derive(Debug)]
pub struct AviationstackFlightIdentity {
    pub number: Option<String>,
    pub iata: Option<String>,
    pub icao: Option<String>,
}

#[derive(Debug)]
pub struct AviationstackAirline {
    pub name: Option<String>,
    pub iata: Option<String>,
    pub icao: Option<String>,
}

#[derive(Debug)]
pub struct AviationstackDeparture {
    pub airport: Option<String>,
    pub iata: Option<String>,
    pub icao: Option<String>,
    pub terminal: Option<String>,
    pub gate: Option<String>,
    pub scheduled: Option<String>,
    pub estimated: Option<String>,
    pub actual: Option<String>,
    pub actual_runway: Option<String>,
    pub delay: Option<i64>,
}

#[derive(Debug)]
pub struct AviationstackArrival {
    pub airport: Option<String>,
    pub iata: Option<String>,
    pub icao: Option<String>,
    pub terminal: Option<String>,
    pub gate: Option<String>,
    pub baggage: Option<String>,
    pub scheduled: Option<String>,
    pub estimated: Option<String>,
    pub actual: Option<String>,
    pub delay: Option<i64>,
}

#[derive(Debug)]
pub struct AviationstackAircraft {
    pub registration: Option<String>,
    pub icao24: Option<String>,
    pub icao: Option<String>,
}

/// What a metadata provider knows about one flight.
#[derive(Debug)]
pub struct AviationstackFlightMetadata {
    pub flight_date: Option<String>,
    pub flight_status: Option<String>,
    pub flight_iata: Option<String>,
    pub flight_icao: Option<String>,
    pub flight_number: Option<String>,
    pub airline_iata: Option<String>,
    pub airline_icao: Option<String>,
    pub airline_name: Option<String>,
    pub departure_airport: Option<String>,
    pub departure_iata: Option<String>,
    pub departure_icao: Option<String>,
    pub departure_terminal: Option<String>,
    pub departure_gate: Option<String>,
    pub departure_scheduled: Option<Timestamp>,
    pub departure_estimated: Option<Timestamp>,
    pub departure_actual: Option<Timestamp>,
    pub departure_actual_runway: Option<Timestamp>,
    pub departure_delay_minutes: Option<i64>,
    pub arrival_airport: Option<String>,
    pub arrival_iata: Option<String>,
    pub arrival_icao: Option<String>,
    pub arrival_terminal: Option<String>,
    pub arrival_gate: Option<String>,
    pub arrival_baggage: Option<String>,
    pub arrival_scheduled: Option<Timestamp>,
    pub arrival_estimated: Option<Timestamp>,
    pub arrival_actual: Option<Timestamp>,
    pub arrival_delay_minutes: Option<i64>,
    pub aircraft_registration: Option<String>,
    pub aircraft_icao24: Option<String>,
    pub aircraft_icao: Option<String>,
}

/// What a metadata record holds.
pub struct MetadataModel {
    pub flight_date: Option<Seq<char>>,
    pub flight_status: Option<Seq<char>>,
    pub flight_iata: Option<Seq<char>>,
    pub flight_icao: Option<Seq<char>>,
    pub flight_number: Option<Seq<char>>,
    pub airline_iata: Option<Seq<char>>,
    pub airline_icao: Option<Seq<char>>,
    pub airline_name: Option<Seq<char>>,
    pub departure_airport: Option<Seq<char>>,
    pub departure_iata: Option<Seq<char>>,
    pub departure_icao: Option<Seq<char>>,
    pub departure_terminal: Option<Seq<char>>,
    pub departure_gate: Option<Seq<char>>,
    pub departure_scheduled: Option<Timestamp>,
    pub departure_estimated: Option<Timestamp>,
    pub departure_actual: Option<Timestamp>,
    pub departure_actual_runway: Option<Timestamp>,
    pub departure_delay_minutes: Option<i64>,
    pub arrival_airport: Option<Seq<char>>,
    pub arrival_iata: Option<Seq<char>>,
    pub arrival_icao: Option<Seq<char>>,
    pub arrival_terminal: Option<Seq<char>>,
    pub arrival_gate: Option<Seq<char>>,
    pub arrival_baggage: Option<Seq<char>>,
    pub arrival_scheduled: Option<Timestamp>,
    pub arrival_estimated: Option<Timestamp>,
    pub arrival_actual: Option<Timestamp>,
    pub arrival_delay_minutes: Option<i64>,
    pub aircraft_registration: Option<Seq<char>>,
    pub aircraft_icao24: Option<Seq<char>>,
    pub aircraft_icao: Option<Seq<char>>,
}

impl View for AviationstackFlightMetadata {
    type V = MetadataModel;

    open spec fn view(&self) -> MetadataModel {
        MetadataModel {
            flight_date: slice::opt_text(self.flight_date),
            flight_status: slice::opt_text(self.flight_status),
            flight_iata: slice::opt_text(self.flight_iata),
            flight_icao: slice::opt_text(self.flight_icao),
            flight_number: slice::opt_text(self.flight_number),
            airline_iata: slice::opt_text(self.airline_iata),
            airline_icao: slice::opt_text(self.airline_icao),
            airline_name: slice::opt_text(self.airline_name),
            departure_airport: slice::opt_text(self.departure_airport),
            departure_iata: slice::opt_text(self.departure_iata),
            departure_icao: slice::opt_text(self.departure_icao),
            departure_terminal: slice::opt_text(self.departure_terminal),
            departure_gate: slice::opt_text(self.departure_gate),
            departure_scheduled: self.departure_scheduled,
            departure_estimated: self.departure_estimated,
            departure_actual: self.departure_actual,
            departure_actual_runway: self.departure_actual_runway,
            departure_delay_minutes: self.departure_delay_minutes,
            arrival_airport: slice::opt_text(self.arrival_airport),
            arrival_iata: slice::opt_text(self.arrival_iata),
            arrival_icao: slice::opt_text(self.arrival_icao),
            arrival_terminal: slice::opt_text(self.arrival_terminal),
            arrival_gate: slice::opt_text(self.arrival_gate),
            arrival_baggage: slice::opt_text(self.arrival_baggage),
            arrival_scheduled: self.arrival_scheduled,
            arrival_estimated: self.arrival_estimated,
            arrival_actual: self.arrival_actual,
            arrival_delay_minutes: self.arrival_delay_minutes,
            aircraft_registration: slice::opt_text(self.aircraft_registration),
            aircraft_icao24: slice::opt_text(self.aircraft_icao24),
            aircraft_icao: slice::opt_text(self.aircraft_icao),
        }
    }
}

impl MetadataModel {
    /// When the aircraft left the ground: the runway time, else the time of
    /// departure.
    pub open spec fn takeoff_time(self) -> Option<Timestamp> {
        if self.departure_actual_runway is Some {
            self.departure_actual_runway
        } else {
            self.departure_actual
        }
    }

    /// Every instant of the record lies inside the calendar.
    pub open spec fn valid(self) -> bool {
        &&& self.departure_scheduled is Some ==> self.departure_scheduled->0.valid()
        &&& self.departure_estimated is Some ==> self.departure_estimated->0.valid()
        &&& self.departure_actual is Some ==> self.departure_actual->0.valid()
        &&& self.departure_actual_runway is Some ==> self.departure_actual_runway->0.valid()
        &&& self.arrival_scheduled is Some ==> self.arrival_scheduled->0.valid()
        &&& self.arrival_estimated is Some ==> self.arrival_estimated->0.valid()
        &&& self.arrival_actual is Some ==> self.arrival_actual->0.valid()
    }

    /// The record without any entry.
    pub open spec fn blank() -> MetadataModel {
        MetadataModel {
            flight_date: None,
            flight_status: None,
            flight_iata: None,
            flight_icao: None,
            flight_number: None,
            airline_iata: None,
            airline_icao: None,
            airline_name: None,
            departure_airport: None,
            departure_iata: None,
            departure_icao: None,
            departure_terminal: None,
            departure_gate: None,
            departure_scheduled: None,
            departure_estimated: None,
            departure_actual: None,
            departure_actual_runway: None,
            departure_delay_minutes: None,
            arrival_airport: None,
            arrival_iata: None,
            arrival_icao: None,
            arrival_terminal: None,
            arrival_gate: None,
            arrival_baggage: None,
            arrival_scheduled: None,
            arrival_estimated: None,
            arrival_actual: None,
            arrival_delay_minutes: None,
            aircraft_registration: None,
            aircraft_icao24: None,
            aircraft_icao: None,
        }
    }
}

impl AviationstackFlightMetadata {
    /// The record without any entry.
    pub fn blank() -> (r: AviationstackFlightMetadata)
        ensures
            r@ == MetadataModel::blank(),
    {
        AviationstackFlightMetadata {
            flight_date: None,
            flight_status: None,
            flight_iata: None,
            flight_icao: None,
            flight_number: None,
            airline_iata: None,
            airline_icao: None,
            airline_name: None,
            departure_airport: None,
            departure_iata: None,
            departure_icao: None,
            departure_terminal: None,
            departure_gate: None,
            departure_scheduled: None,
            departure_estimated: None,
            departure_actual: None,
            departure_actual_runway: None,
            departure_delay_minutes: None,
            arrival_airport: None,
            arrival_iata: None,
            arrival_icao: None,
            arrival_terminal: None,
            arrival_gate: None,
            arrival_baggage: None,
            arrival_scheduled: None,
            arrival_estimated: None,
            arrival_actual: None,
            arrival_delay_minutes: None,
            aircraft_registration: None,
            aircraft_icao24: None,
            aircraft_icao: None,
        }
    }

    /// A copy of the record.
    pub fn duplicate(&self) -> (r: AviationstackFlightMetadata)
        ensures
            r@ == self@,
    {
        AviationstackFlightMetadata {
            flight_date: slice::clone_opt(&self.flight_date),
            flight_status: slice::clone_opt(&self.flight_status),
            flight_iata: slice::clone_opt(&self.flight_iata),
            flight_icao: slice::clone_opt(&self.flight_icao),
            flight_number: slice::clone_opt(&self.flight_number),
            airline_iata: slice::clone_opt(&self.airline_iata),
            airline_icao: slice::clone_opt(&self.airline_icao),
            airline_name: slice::clone_opt(&self.airline_name),
            departure_airport: slice::clone_opt(&self.departure_airport),
            departure_iata: slice::clone_opt(&self.departure_iata),
            departure_icao: slice::clone_opt(&self.departure_icao),
            departure_terminal: slice::clone_opt(&self.departure_terminal),
            departure_gate: slice::clone_opt(&self.departure_gate),
            departure_scheduled: self.departure_scheduled,
            departure_estimated: self.departure_estimated,
            departure_actual: self.departure_actual,
            departure_actual_runway: self.departure_actual_runway,
            departure_delay_minutes: self.departure_delay_minutes,
            arrival_airport: slice::clone_opt(&self.arrival_airport),
            arrival_iata: slice::clone_opt(&self.arrival_iata),
            arrival_icao: slice::clone_opt(&self.arrival_icao),
            arrival_terminal: slice::clone_opt(&self.arrival_terminal),
            arrival_gate: slice::clone_opt(&self.arrival_gate),
            arrival_baggage: slice::clone_opt(&self.arrival_baggage),
            arrival_scheduled: self.arrival_scheduled,
            arrival_estimated: self.arrival_estimated,
            arrival_actual: self.arrival_actual,
            arrival_delay_minutes: self.arrival_delay_minutes,
            aircraft_registration: slice::clone_opt(&self.aircraft_registration),
            aircraft_icao24: slice::clone_opt(&self.aircraft_icao24),
            aircraft_icao: slice::clone_opt(&self.aircraft_icao),
        }
    }

    /// When the aircraft left the ground: the runway time, else the time of
    /// departure.
    pub fn takeoff_time(&self) -> (r: Option<Timestamp>)
        ensures
            r == self@.takeoff_time(),
    {
        match self.departure_actual_runway {
            Some(t) => Some(t),
            None => self.departure_actual,
        }
    }
}

/// The instant that a provider's time text stands for. Blank texts stand for
/// none.
pub open spec fn provider_time(value: Option<Seq<char>>) -> Option<Timestamp> {
    match value {
        Some(s) => if slice::trimmed(s).len() == 0 {
            None
        } else {
            time::rfc3339_instant(slice::trimmed(s))
        },
        None => None,
    }
}

/// The instant that a provider's time text stands for. Blank texts stand for
/// none.
pub fn parse_aviationstack_datetime(value: Option<&str>) -> (r: Option<Timestamp>)
    ensures
        r == provider_time(slice::opt_str(value)),
        r is Some ==> r->0.valid(),
{
    match value {
        Some(s) => {
            let t = slice::trim(s);
            if t.as_str().is_empty() {
                None
            } else {
                time::parse_rfc3339(t.as_str())
            }
        },
        None => None,
    }
}

impl AviationstackFlight {
    /// The metadata record that the provider's nested answer amounts to.
    pub open spec fn metadata(self) -> MetadataModel {
        MetadataModel {
            flight_date: slice::opt_text(self.flight_date),
            flight_status: slice::opt_text(self.flight_status),
            flight_iata: match self.flight {
                Some(x) => slice::opt_text(x.iata),
                None => None,
            },
            flight_icao: match self.flight {
                Some(x) => slice::opt_text(x.icao),
                None => None,
            },
            flight_number: match self.flight {
                Some(x) => slice::opt_text(x.number),
                None => None,
            },
            airline_iata: match self.airline {
                Some(x) => slice::opt_text(x.iata),
                None => None,
            },
            airline_icao: match self.airline {
                Some(x) => slice::opt_text(x.icao),
                None => None,
            },
            airline_name: match self.airline {
                Some(x) => slice::opt_text(x.name),
                None => None,
            },
            departure_airport: match self.departure {
                Some(x) => slice::opt_text(x.airport),
                None => None,
            },
            departure_iata: match self.departure {
                Some(x) => slice::opt_text(x.iata),
                None => None,
            },
            departure_icao: match self.departure {
                Some(x) => slice::opt_text(x.icao),
                None => None,
            },
            departure_terminal: match self.departure {
                Some(x) => slice::opt_text(x.terminal),
                None => None,
            },
            departure_gate: match self.departure {
                Some(x) => slice::opt_text(x.gate),
                None => None,
            },
            departure_scheduled: match self.departure {
                Some(x) => provider_time(slice::opt_text(x.scheduled)),
                None => None,
            },
            departure_estimated: match self.departure {
                Some(x) => provider_time(slice::opt_text(x.estimated)),
                None => None,
            },
            departure_actual: match self.departure {
                Some(x) => provider_time(slice::opt_text(x.actual)),
                None => None,
            },
            departure_actual_runway: match self.departure {
                Some(x) => provider_time(slice::opt_text(x.actual_runway)),
                None => None,
            },
            departure_delay_minutes: match self.departure {
                Some(x) => x.delay,
                None => None,
            },
            arrival_airport: match self.arrival {
                Some(x) => slice::opt_text(x.airport),
                None => None,
            },
            arrival_iata: match self.arrival {
                Some(x) => slice::opt_text(x.iata),
                None => None,
            },
            arrival_icao: match self.arrival {
                Some(x) => slice::opt_text(x.icao),
                None => None,
            },
            arrival_terminal: match self.arrival {
                Some(x) => slice::opt_text(x.terminal),
                None => None,
            },
            arrival_gate: match self.arrival {
                Some(x) => slice::opt_text(x.gate),
                None => None,
            },
            arrival_baggage: match self.arrival {
                Some(x) => slice::opt_text(x.baggage),
                None => None,
            },
            arrival_scheduled: match self.arrival {
                Some(x) => provider_time(slice::opt_text(x.scheduled)),
                None => None,
            },
            arrival_estimated: match self.arrival {
                Some(x) => provider_time(slice::opt_text(x.estimated)),
                None => None,
            },
            arrival_actual: match self.arrival {
                Some(x) => provider_time(slice::opt_text(x.actual)),
                None => None,
            },
            arrival_delay_minutes: match self.arrival {
                Some(x) => x.delay,
                None => None,
            },
            aircraft_registration: match self.aircraft {
                Some(x) => slice::opt_text(x.registration),
                None => None,
            },
            aircraft_icao24: match self.aircraft {
                Some(x) => slice::opt_text(x.icao24),
                None => None,
            },
            aircraft_icao: match self.aircraft {
                Some(x) => slice::opt_text(x.icao),
                None => None,
            },
        }
    }
}

impl AviationstackFlightMetadata {
    /// The metadata record that the provider's nested answer amounts to.
    pub fn from_flight(value: &AviationstackFlight) -> (r: AviationstackFlightMetadata)
        ensures
            r@ == value.metadata(),
            r@.valid(),
    {
        AviationstackFlightMetadata {
            flight_date: slice::clone_opt(&value.flight_date),
            flight_status: slice::clone_opt(&value.flight_status),
            flight_iata: match &value.flight {
                Some(x) => slice::clone_opt(&x.iata),
                None => None,
            },
            flight_icao: match &value.flight {
                Some(x) => slice::clone_opt(&x.icao),
                None => None,
            },
            flight_number: match &value.flight {
                Some(x) => slice::clone_opt(&x.number),
                None => None,
            },
            airline_iata: match &value.airline {
                Some(x) => slice::clone_opt(&x.iata),
                None => None,
            },
            airline_icao: match &value.airline {
                Some(x) => slice::clone_opt(&x.icao),
                None => None,
            },
            airline_name: match &value.airline {
                Some(x) => slice::clone_opt(&x.name),
                None => None,
            },
            departure_airport: match &value.departure {
                Some(x) => slice::clone_opt(&x.airport),
                None => None,
            },
            departure_iata: match &value.departure {
                Some(x) => slice::clone_opt(&x.iata),
                None => None,
            },
            departure_icao: match &value.departure {
                Some(x) => slice::clone_opt(&x.icao),
                None => None,
            },
            departure_terminal: match &value.departure {
                Some(x) => slice::clone_opt(&x.terminal),
                None => None,
            },
            departure_gate: match &value.departure {
                Some(x) => slice::clone_opt(&x.gate),
                None => None,
            },
            departure_scheduled: match &value.departure {
                Some(x) => parse_aviationstack_datetime(slice::borrow(&x.scheduled)),
                None => None,
            },
            departure_estimated: match &value.departure {
                Some(x) => parse_aviationstack_datetime(slice::borrow(&x.estimated)),
                None => None,
            },
            departure_actual: match &value.departure {
                Some(x) => parse_aviationstack_datetime(slice::borrow(&x.actual)),
                None => None,
            },
            departure_actual_runway: match &value.departure {
                Some(x) => parse_aviationstack_datetime(slice::borrow(&x.actual_runway)),
                None => None,
            },
            departure_delay_minutes: match &value.departure {
                Some(x) => x.delay,
                None => None,
            },
            arrival_airport: match &value.arrival {
                Some(x) => slice::clone_opt(&x.airport),
                None => None,
            },
            arrival_iata: match &value.arrival {
                Some(x) => slice::clone_opt(&x.iata),
                None => None,
            },
            arrival_icao: match &value.arrival {
                Some(x) => slice::clone_opt(&x.icao),
                None => None,
            },
            arrival_terminal: match &value.arrival {
                Some(x) => slice::clone_opt(&x.terminal),
                None => None,
            },
            arrival_gate: match &value.arrival {
                Some(x) => slice::clone_opt(&x.gate),
                None => None,
            },
            arrival_baggage: match &value.arrival {
                Some(x) => slice::clone_opt(&x.baggage),
                None => None,
            },
            arrival_scheduled: match &value.arrival {
                Some(x) => parse_aviationstack_datetime(slice::borrow(&x.scheduled)),
                None => None,
            },
            arrival_estimated: match &value.arrival {
                Some(x) => parse_aviationstack_datetime(slice::borrow(&x.estimated)),
                None => None,
            },
            arrival_actual: match &value.arrival {
                Some(x) => parse_aviationstack_datetime(slice::borrow(&x.actual)),
                None => None,
            },
            arrival_delay_minutes: match &value.arrival {
                Some(x) => x.delay,
                None => None,
            },
            aircraft_registration: match &value.aircraft {
                Some(x) => slice::clone_opt(&x.registration),
                None => None,
            },
            aircraft_icao24: match &value.aircraft {
                Some(x) => slice::clone_opt(&x.icao24),
                None => None,
            },
            aircraft_icao: match &value.aircraft {
                Some(x) => slice::clone_opt(&x.icao),
                None => None,
            },
        }
    }
}

} // verus!
