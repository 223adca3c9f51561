//! The operating callsign of a flight number with an airline's IATA code.

use vstd::prelude::*;
use vstd::string::StringExecFns;

use crate::aviation::codes;
use crate::lists;
use crate::text::slice;

verus! {

/// The codes of an airline.
#[derive(Debug)]
pub struct Airline {
    pub iata: String,
    pub icao: String,
}

impl View for Airline {
    type V = (Seq<char>, Seq<char>);

    open spec fn view(&self) -> (Seq<char>, Seq<char>) {
        (self.iata@, self.icao@)
    }
}

/// The airlines that are known.
#[derive(Debug)]
pub struct AirlineTable {
    pub rows: Vec<Airline>,
}

impl View for AirlineTable {
    type V = Seq<(Seq<char>, Seq<char>)>;

    open spec fn view(&self) -> Seq<(Seq<char>, Seq<char>)> {
        self.rows@.map_values(|a: Airline| a@)
    }
}

/// The airlines with the IATA code.
pub open spec fn coded(iata: Seq<char>) -> spec_fn((Seq<char>, Seq<char>)) -> bool {
    |a: (Seq<char>, Seq<char>)| a.0 == iata
}

/// The ICAO code of the first airline with the IATA code.
pub open spec fn icao_of(airlines: Seq<(Seq<char>, Seq<char>)>, iata: Seq<char>) -> Option<
    Seq<char>,
> {
    match lists::first_where(airlines, coded(iata)) {
        Some(i) => Some(airlines[i].1),
        None => None,
    }
}

impl AirlineTable {
    /// The ICAO code of the first airline with the IATA code.
    pub fn get(&self, iata: &str) -> (r: Option<String>)
        ensures
            slice::opt_text(r) == icao_of(self@, iata@),
    {
        let ghost p = coded(iata@);
        let mut i: usize = 0;
        while i < self.rows.len()
            invariant
                i <= self.rows@.len(),
                p == coded(iata@),
                forall|j: int| 0 <= j < i ==> !p(#[trigger] self@[j]),
            decreases self.rows@.len() - i,
        {
            assert(self@[i as int] == self.rows@[i as int]@);
            if slice::same(self.rows[i].iata.as_str(), iata) {
                proof {
                    assert(p(self@[i as int]));
                    lists::lemma_first_at(self@, p, i as int);
                }
                return Some(self.rows[i].icao.clone());
            }
            i = i + 1;
        }
        proof {
            lists::lemma_first_none(self@, p);
        }
        None
    }
}

/// How a callsign is resolved.
#[derive(Debug)]
pub enum Resolution {
    Done(String),
    /// The airline is to be looked up first.
    LookUp { airline: String },
}

/// The flight number under an airline's ICAO code, where that is known.
pub open spec fn operated(input: Seq<char>, icao: Option<Seq<char>>) -> Seq<char> {
    match icao {
        Some(icao) => icao + input.skip(2),
        None => input,
    }
}

/// Resolves a flight number with an IATA code to the operating callsign, as far
/// as the airline is known here. Everything else is left as it is.
pub fn resolve_locally(input: &str, airlines: &AirlineTable) -> (r: Resolution)
    ensures
        ({
            let icao = icao_of(airlines@, input@.take(2));
            if !codes::iata_flight_number(input@) {
                r matches Resolution::Done(s) && s@ == input@
            } else if icao is Some {
                r matches Resolution::Done(s) && s@ == operated(input@, icao)
            } else {
                r matches Resolution::LookUp { airline } && airline@ == input@.take(2)
            }
        }),
{
    if !codes::is_iata_flight_number(input) {
        return Resolution::Done(input.to_owned());
    }
    let v = slice::chars_of(input);
    let airline = slice::text_between(&v, 0, 2);
    assert(airline@ =~= input@.take(2));
    match airlines.get(airline.as_str()) {
        Some(icao) => Resolution::Done(resolved_callsign(input, Some(icao.as_str()))),
        None => Resolution::LookUp { airline },
    }
}

/// The operating callsign once the airline has been looked up. Where nothing
/// came of that the input stays as it is.
pub fn resolved_callsign(input: &str, icao: Option<&str>) -> (r: String)
    requires
        codes::iata_flight_number(input@),
    ensures
        r@ == operated(input@, slice::opt_str(icao)),
{
    match icao {
        Some(icao) => {
            let v = slice::chars_of(input);
            let mut r = icao.to_owned();
            r.append(slice::text_between(&v, 2, v.len()).as_str());
            assert(v@.subrange(2, v@.len() as int) =~= input@.skip(2));
            r
        },
        None => input.to_owned(),
    }
}

/// Where the service is to be had.
pub const ADSBDB_BASE_URL: &'static str = "https://api.adsbdb.com/v0";

/// The address of a route.
pub fn route_url(base_url: &str, callsign: &str) -> (r: String)
    ensures
        r@ == base_url@ + "/callsign/"@ + callsign@,
{
    let mut r = base_url.to_owned();
    r.append("/callsign/");
    r.append(callsign);
    r
}

/// The address of an airline.
pub fn airline_url(base_url: &str, iata: &str) -> (r: String)
    ensures
        r@ == base_url@ + "/airline/"@ + iata@,
{
    let mut r = base_url.to_owned();
    r.append("/airline/");
    r.append(iata);
    r
}

/// Whether a reply with an HTTP status has something to say. Any other stands
/// for an unknown route or airline.
pub fn has_answer(status: u16) -> (b: bool)
    ensures
        b == (200 <= status <= 299),
{
    200 <= status && status <= 299
}

} // verus!
