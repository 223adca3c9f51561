//! Flight numbers and aircraft addresses.

use vstd::prelude::*;

use crate::text::{chars, slice};

verus! {

pub open spec fn all_digits(s: Seq<char>) -> bool {
    forall|i: int| 0 <= i < s.len() ==> chars::ascii_digit(#[trigger] s[i])
}

pub open spec fn all_alphanumeric(s: Seq<char>) -> bool {
    forall|i: int| 0 <= i < s.len() ==> chars::ascii_alphanumeric(#[trigger] s[i])
}

/// A flight number with an IATA airline code: two capitals and one to four
/// digits.
pub open spec fn iata_flight_number(s: Seq<char>) -> bool {
    3 <= s.len() <= 6 && chars::ascii_upper(s[0]) && chars::ascii_upper(s[1]) && all_digits(
        s.skip(2),
    )
}

/// A flight number with an ICAO airline code: three capitals, a digit and at
/// most three more letters or digits.
pub open spec fn icao_flight_number(s: Seq<char>) -> bool {
    4 <= s.len() <= 7 && chars::ascii_upper(s[0]) && chars::ascii_upper(s[1]) && chars::ascii_upper(
        s[2],
    ) && chars::ascii_digit(s[3]) && all_alphanumeric(s.skip(4))
}

/// An ICAO24 address: six hexadecimal digits.
pub open spec fn icao24(s: Seq<char>) -> bool {
    s.len() == 6 && forall|i: int| 0 <= i < s.len() ==> chars::hex_digit(#[trigger] s[i])
}

pub fn is_iata_flight_number(s: &str) -> (b: bool)
    ensures
        b == iata_flight_number(s@),
{
    let v = slice::chars_of(s);
    if v.len() < 3 || v.len() > 6 {
        return false;
    }
    if !('A' <= v[0] && v[0] <= 'Z' && 'A' <= v[1] && v[1] <= 'Z') {
        return false;
    }
    let mut i: usize = 2;
    while i < v.len()
        invariant
            2 <= i <= v@.len(),
            v@ == s@,
            forall|j: int| 2 <= j < i ==> chars::ascii_digit(#[trigger] v@[j]),
        decreases v@.len() - i,
    {
        if !chars::is_ascii_digit(v[i]) {
            assert(!chars::ascii_digit(s@.skip(2)[i - 2]));
            return false;
        }
        i = i + 1;
    }
    assert forall|j: int| 0 <= j < s@.skip(2).len() implies chars::ascii_digit(
        #[trigger] s@.skip(2)[j],
    ) by {
        assert(chars::ascii_digit(v@[j + 2]));
    }
    true
}

pub fn is_icao_flight_number(s: &str) -> (b: bool)
    ensures
        b == icao_flight_number(s@),
{
    let v = slice::chars_of(s);
    if v.len() < 4 || v.len() > 7 {
        return false;
    }
    if !('A' <= v[0] && v[0] <= 'Z' && 'A' <= v[1] && v[1] <= 'Z' && 'A' <= v[2] && v[2] <= 'Z'
        && chars::is_ascii_digit(v[3])) {
        return false;
    }
    let mut i: usize = 4;
    while i < v.len()
        invariant
            4 <= i <= v@.len(),
            v@ == s@,
            forall|j: int| 4 <= j < i ==> chars::ascii_alphanumeric(#[trigger] v@[j]),
        decreases v@.len() - i,
    {
        if !chars::is_ascii_alphanumeric(v[i]) {
            assert(!chars::ascii_alphanumeric(s@.skip(4)[i - 4]));
            return false;
        }
        i = i + 1;
    }
    assert forall|j: int| 0 <= j < s@.skip(4).len() implies chars::ascii_alphanumeric(
        #[trigger] s@.skip(4)[j],
    ) by {
        assert(chars::ascii_alphanumeric(v@[j + 4]));
    }
    true
}

pub fn is_icao24(s: &str) -> (b: bool)
    ensures
        b == icao24(s@),
{
    let v = slice::chars_of(s);
    if v.len() != 6 {
        return false;
    }
    let mut i: usize = 0;
    while i < v.len()
        invariant
            i <= v@.len(),
            v@ == s@,
            forall|j: int| 0 <= j < i ==> chars::hex_digit(#[trigger] v@[j]),
        decreases v@.len() - i,
    {
        if !chars::is_hex_digit(v[i]) {
            return false;
        }
        i = i + 1;
    }
    true
}

pub fn is_alphanumeric(s: &str) -> (b: bool)
    ensures
        b == all_alphanumeric(s@),
{
    let v = slice::chars_of(s);
    let mut i: usize = 0;
    while i < v.len()
        invariant
            i <= v@.len(),
            v@ == s@,
            forall|j: int| 0 <= j < i ==> chars::ascii_alphanumeric(#[trigger] v@[j]),
        decreases v@.len() - i,
    {
        if !chars::is_ascii_alphanumeric(v[i]) {
            return false;
        }
        i = i + 1;
    }
    true
}

} // verus!
