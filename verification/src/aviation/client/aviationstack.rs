//! Requests for flight metadata: which ones are made, and what their answers
//! mean.

use vstd::prelude::*;

use crate::aviation::codes;
use crate::aviation::tracker::{FlightIdentifier, IdentifierModel};
use crate::aviation::types::{AviationstackFlight, AviationstackFlightMetadata};
use crate::text::slice;

verus! {

/// The codes by which a flight is looked up.
#[derive(Clone, Copy, Debug, PartialEq, Eq, Structural)]
pub enum QueryKey {
    FlightIata,
    FlightIcao,
}

impl QueryKey {
    pub open spec fn name(self) -> Seq<char> {
        match self {
            QueryKey::FlightIata => "flight_iata"@,
            QueryKey::FlightIcao => "flight_icao"@,
        }
    }

    /// The name of the parameter.
    pub fn to_text(self) -> (r: &'static str)
        ensures
            r@ == self.name(),
    {
        match self {
            QueryKey::FlightIata => "flight_iata",
            QueryKey::FlightIcao => "flight_icao",
        }
    }
}

/// What the queries of a list hold.
pub open spec fn query_models(v: Seq<(QueryKey, String)>) -> Seq<(QueryKey, Seq<char>)> {
    v.map_values(|q: (QueryKey, String)| (q.0, q.1@))
}

/// What a lookup is about: the requested callsign, or the one that is known
/// where an address was requested.
pub open spec fn candidate(identifier: IdentifierModel, callsign: Option<Seq<char>>) -> Option<
    Seq<char>,
> {
    let raw = match identifier {
        IdentifierModel::Callsign(value) => Some(value),
        IdentifierModel::Hex(_) => callsign,
    };
    match raw {
        Some(s) => if slice::trimmed(s).len() > 0 {
            Some(slice::uppercased(slice::trimmed(s)))
        } else {
            None
        },
        None => None,
    }
}

/// The code of the operating airline that is tried after a marketing code.
pub open spec fn operating_code(candidate: Seq<char>, callsign: Option<Seq<char>>) -> Option<
    Seq<char>,
> {
    match callsign {
        Some(s) => {
            let icao = slice::uppercased(slice::trimmed(s));
            if slice::trimmed(s).len() > 0 && codes::icao_flight_number(icao) && icao != candidate {
                Some(icao)
            } else {
                None
            }
        },
        None => None,
    }
}

/// The queries for a flight, in the order in which they are tried. A marketing
/// code may be missing where the code of the operating airline is known, so
/// that one follows.
pub open spec fn queries(identifier: IdentifierModel, callsign: Option<Seq<char>>) -> Seq<
    (QueryKey, Seq<char>),
> {
    match candidate(identifier, callsign) {
        None => Seq::empty(),
        Some(c) => if codes::iata_flight_number(c) {
            match operating_code(c, callsign) {
                Some(icao) => seq![(QueryKey::FlightIata, c), (QueryKey::FlightIcao, icao)],
                None => seq![(QueryKey::FlightIata, c)],
            }
        } else {
            seq![(QueryKey::FlightIcao, c)]
        },
    }
}

/// The queries for a flight, in the order in which they are tried.
pub fn aviationstack_queries(identifier: &FlightIdentifier, callsign: Option<&str>) -> (r: Vec<
    (QueryKey, String),
>)
    ensures
        query_models(r@) == queries(identifier@, slice::opt_str(callsign)),
{
    let mut r: Vec<(QueryKey, String)> = Vec::new();
    assert(query_models(r@) =~= Seq::<(QueryKey, Seq<char>)>::empty());
    let raw = match identifier {
        FlightIdentifier::Callsign(value) => slice::trim(value.as_str()),
        FlightIdentifier::Hex(_) => match callsign {
            Some(callsign) => slice::trim(callsign),
            None => return r,
        },
    };
    if raw.as_str().is_empty() {
        return r;
    }
    let candidate = slice::to_upper(raw.as_str());
    let ghost c = candidate@;
    if !codes::is_iata_flight_number(candidate.as_str()) {
        r.push((QueryKey::FlightIcao, candidate));
        assert(query_models(r@) =~= seq![(QueryKey::FlightIcao, c)]);
        return r;
    }
    if let Some(callsign) = callsign {
        let icao = slice::trim(callsign);
        if !icao.as_str().is_empty() {
            let icao = slice::to_upper(icao.as_str());
            if codes::is_icao_flight_number(icao.as_str()) && !slice::same(
                icao.as_str(),
                candidate.as_str(),
            ) {
                let ghost i = icao@;
                r.push((QueryKey::FlightIata, candidate));
                r.push((QueryKey::FlightIcao, icao));
                assert(query_models(r@) =~= seq![
                    (QueryKey::FlightIata, c),
                    (QueryKey::FlightIcao, i),
                ]);
                return r;
            }
        }
    }
    r.push((QueryKey::FlightIata, candidate));
    assert(query_models(r@) =~= seq![(QueryKey::FlightIata, c)]);
    r
}

/// The first query for a flight.
pub fn aviationstack_query(identifier: &FlightIdentifier, callsign: Option<&str>) -> (r: Option<
    (QueryKey, String),
>)
    ensures
        ({
            let all = queries(identifier@, slice::opt_str(callsign));
            match r {
                Some(q) => all.len() > 0 && (q.0, q.1@) == all[0],
                None => all.len() == 0,
            }
        }),
{
    let all = aviationstack_queries(identifier, callsign);
    assert(query_models(all@).len() == all@.len());
    if all.len() == 0 {
        return None;
    }
    assert(query_models(all@)[0] == (all@[0].0, all@[0].1@));
    Some((all[0].0, all[0].1.clone()))
}

/// Whether a refusal calls for action: a bad key, or a plan or a quota that is
/// used up. Other refusals are routine.
pub fn aviationstack_4xx_is_actionable(status: u16) -> (b: bool)
    ensures
        b == (status == 401 || status == 403 || status == 429),
{
    status == 401 || status == 403 || status == 429
}

/// What the status of an answer means.
#[derive(Clone, Copy, Debug, PartialEq, Eq, Structural)]
pub enum StatusVerdict {
    /// The answer holds flights.
    Answer,
    /// The provider has no data.
    Miss,
    /// The provider has no data, and an operator should look into it.
    ActionableMiss,
    Failure,
}

/// What the status of an answer means.
pub open spec fn verdict_on(status: u16) -> StatusVerdict {
    if 400 <= status <= 499 {
        if status == 401 || status == 403 || status == 429 {
            StatusVerdict::ActionableMiss
        } else {
            StatusVerdict::Miss
        }
    } else if 200 <= status <= 299 {
        StatusVerdict::Answer
    } else {
        StatusVerdict::Failure
    }
}

/// What the status of an answer means.
pub fn judge_status(status: u16) -> (r: StatusVerdict)
    ensures
        r == verdict_on(status),
{
    if 400 <= status && status <= 499 {
        if aviationstack_4xx_is_actionable(status) {
            StatusVerdict::ActionableMiss
        } else {
            StatusVerdict::Miss
        }
    } else if 200 <= status && status <= 299 {
        StatusVerdict::Answer
    } else {
        StatusVerdict::Failure
    }
}

/// How a lookup goes on after a query.
#[derive(Clone, Copy, Debug, PartialEq, Eq, Structural)]
pub enum QueryVerdict {
    Found,
    TryNext,
    NotFound,
    Failed,
}

/// How a lookup goes on after the query at `index` of `count`. A failure counts
/// only where no query is left.
pub open spec fn next_after(
    answer: Result<Option<AviationstackFlightMetadata>, ()>,
    index: int,
    count: int,
) -> QueryVerdict {
    match answer {
        Ok(Some(_)) => QueryVerdict::Found,
        Ok(None) => if index + 1 < count {
            QueryVerdict::TryNext
        } else {
            QueryVerdict::NotFound
        },
        Err(_) => if index + 1 < count {
            QueryVerdict::TryNext
        } else {
            QueryVerdict::Failed
        },
    }
}

/// How a lookup goes on after the query at `index` of `count`. A failure counts
/// only where no query is left.
pub fn after_query(
    answer: &Result<Option<AviationstackFlightMetadata>, ()>,
    index: usize,
    count: usize,
) -> (r: QueryVerdict)
    requires
        index < count,
    ensures
        r == next_after(*answer, index as int, count as int),
{
    match answer {
        Ok(Some(_)) => QueryVerdict::Found,
        Ok(None) => if index + 1 < count {
            QueryVerdict::TryNext
        } else {
            QueryVerdict::NotFound
        },
        Err(_) => if index + 1 < count {
            QueryVerdict::TryNext
        } else {
            QueryVerdict::Failed
        },
    }
}

/// The metadata of the first flight of an answer.
pub fn first_metadata(flights: &Vec<AviationstackFlight>) -> (r: Option<
    AviationstackFlightMetadata,
>)
    ensures
        match r {
            Some(m) => flights@.len() > 0 && m@ == flights@[0].metadata() && m@.valid(),
            None => flights@.len() == 0,
        },
{
    if flights.len() == 0 {
        return None;
    }
    Some(AviationstackFlightMetadata::from_flight(&flights[0]))
}

} // verus!
