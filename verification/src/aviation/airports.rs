//! The coordinates of airports.

use vstd::prelude::*;

use crate::decimal::Decimal;
use crate::lists;
use crate::text::slice;

verus! {

/// An airport: its IATA code and where it lies.
#[derive(Debug)]
pub struct AirportPosition {
    pub iata: String,
    pub lat: Decimal,
    pub lon: Decimal,
}

/// What the position of an airport holds.
pub struct PositionModel {
    pub iata: Seq<char>,
    pub lat: Decimal,
    pub lon: Decimal,
}

impl View for AirportPosition {
    type V = PositionModel;

    open spec fn view(&self) -> PositionModel {
        PositionModel { iata: self.iata@, lat: self.lat, lon: self.lon }
    }
}

/// The airports that are known.
#[derive(Debug)]
pub struct Airports {
    pub rows: Vec<AirportPosition>,
}

impl View for Airports {
    type V = Seq<PositionModel>;

    open spec fn view(&self) -> Seq<PositionModel> {
        self.rows@.map_values(|r: AirportPosition| r@)
    }
}

/// The coordinates of the first airport with the code.
pub open spec fn coords_of(airports: Seq<PositionModel>, iata: Seq<char>) -> Option<
    (Decimal, Decimal),
> {
    match lists::first_where(airports, |r: PositionModel| r.iata == iata) {
        Some(i) => Some((airports[i].lat, airports[i].lon)),
        None => None,
    }
}

/// The coordinates of a destination as it is written, without padding and in
/// upper case.
pub open spec fn destination_coords(airports: Seq<PositionModel>, dest: Seq<char>) -> Option<
    (Decimal, Decimal),
> {
    coords_of(airports, slice::uppercased(slice::trimmed(dest)))
}

impl Airports {
    /// The coordinates of the first airport with the code.
    pub fn iata_to_coords(&self, iata: &str) -> (r: Option<(Decimal, Decimal)>)
        ensures
            r == coords_of(self@, iata@),
    {
        let ghost p = |r: PositionModel| r.iata == iata@;
        let mut i: usize = 0;
        while i < self.rows.len()
            invariant
                i <= self.rows@.len(),
                p == |r: PositionModel| r.iata == iata@,
                forall|j: int| 0 <= j < i ==> !p(#[trigger] self@[j]),
            decreases self.rows@.len() - i,
        {
            assert(self@[i as int] == self.rows@[i as int]@);
            if slice::same(self.rows[i].iata.as_str(), iata) {
                proof {
                    assert(p(self@[i as int]));
                    lists::lemma_first_at(self@, p, i as int);
                }
                return Some((self.rows[i].lat, self.rows[i].lon));
            }
            i = i + 1;
        }
        proof {
            lists::lemma_first_none(self@, p);
        }
        None
    }

    /// The coordinates of a destination as it is written.
    pub fn destination(&self, dest: &str) -> (r: Option<(Decimal, Decimal)>)
        ensures
            r == destination_coords(self@, dest@),
    {
        let code = slice::to_upper(slice::trim(dest).as_str());
        self.iata_to_coords(code.as_str())
    }
}

} // verus!
