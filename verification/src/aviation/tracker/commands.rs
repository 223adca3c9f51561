//! Commands about flights that are tracked already, and the rules by which
//! flights are found and told apart.

use vstd::prelude::*;
use vstd::string::StringExecFns;

use super::advance;
use super::cache;
use super::cache::{AviationstackLookup, LookupModel};
use super::debug_journal;
use super::debug_journal::{EventModel, FlightTrackerDebugEvent};
use super::metadata;
use super::{
    FlightIdentifier, FlightModel, FlightTrackerState, IdentifierModel, TrackedFlight, TrackerModel,
};
use crate::aviation::types::NearbyAircraft;
use crate::lists;
use crate::text::{chars, slice};
use crate::time::Timestamp;

verus! {

/// Seconds before the scheduled departure until which a new track is not
/// polled.
pub const STRICT_CHILL: i64 = 10_800;

/// The place of the flight with the identifier.
pub open spec fn place_of(flights: Seq<FlightModel>, identifier: IdentifierModel) -> Option<int> {
    lists::first_where(flights, |f: FlightModel| f.identifier == identifier)
}

/// The place of the flight with the identifier.
pub fn find_index_by_identifier(flights: &Vec<TrackedFlight>, identifier: &FlightIdentifier) -> (r:
    Option<usize>)
    ensures
        match r {
            Some(i) => place_of(super::flight_models(flights@), identifier@) == Some(i as int) && i
                < flights@.len(),
            None => place_of(super::flight_models(flights@), identifier@) is None,
        },
{
    let ghost all = super::flight_models(flights@);
    let ghost p = |f: FlightModel| f.identifier == identifier@;
    let mut i: usize = 0;
    while i < flights.len()
        invariant
            i <= flights@.len(),
            all == super::flight_models(flights@),
            p == |f: FlightModel| f.identifier == identifier@,
            forall|j: int| 0 <= j < i ==> !p(#[trigger] all[j]),
        decreases flights@.len() - i,
    {
        assert(all[i as int] == flights@[i as int]@);
        if flights[i].identifier.same_as(identifier) {
            proof {
                assert(p(all[i as int]));
                lists::lemma_first_at(all, p, i as int);
            }
            return Some(i);
        }
        i = i + 1;
    }
    proof {
        lists::lemma_first_none(all, p);
    }
    None
}

impl FlightModel {
    /// A query in upper case means this flight.
    pub open spec fn meant_by(self, upper: Seq<char>) -> bool {
        ||| chars::same_ignoring_case(self.identifier.text(), upper)
        ||| self.callsign is Some && chars::same_ignoring_case(self.callsign->0, upper)
        ||| metadata::knows(self.alias_callsigns, upper)
        ||| self.hex is Some && chars::same_ignoring_case(self.hex->0, upper)
    }

    /// The callsigns under which the flight is looked for: its own, the
    /// requested one, then the aliases.
    pub open spec fn candidates(self) -> Seq<Seq<char>> {
        cache::with_aliases(
            metadata::with_opt_alias(
                metadata::with_opt_alias(Seq::empty(), self.callsign),
                self.identifier.callsign(),
            ),
            self.alias_callsigns,
        )
    }

    /// The flight is looked for by its address.
    pub open spec fn polled_by_hex(self) -> bool {
        self.identifier is Hex || (self.hex is Some && (self.hex_source is Some
            || self.last_seen is Some))
    }

    /// The departure is so far off that the flight is not looked for yet.
    pub open spec fn chills(self, now: Timestamp) -> bool {
        self.scheduled_departure_at is Some && self.scheduled_departure_at->0.spec_since(now)
            > STRICT_CHILL * 1_000_000_000
    }

    /// The flight is already what an identifier, a callsign or an address
    /// stands for.
    pub open spec fn collides(
        self,
        identifier: IdentifierModel,
        callsign: Option<Seq<char>>,
        hex: Option<Seq<char>>,
    ) -> bool {
        ||| self.identifier == identifier
        ||| identifier.names(self.callsign, self.hex)
        ||| identifier.callsign() is Some && self.associated_with(identifier.callsign()->0)
        ||| callsign is Some && self.associated_with(callsign->0)
        ||| hex is Some && self.hex is Some && chars::same_ignoring_case(self.hex->0, hex->0)
    }
}

/// The place of the first flight that a query means.
pub open spec fn place_meant(flights: Seq<FlightModel>, query: Seq<char>) -> Option<int> {
    lists::first_where(flights, |f: FlightModel| f.meant_by(slice::uppercased(query)))
}

fn is_meant(flight: &TrackedFlight, upper: &str) -> (b: bool)
    ensures
        b == flight@.meant_by(upper@),
{
    if slice::eq_ignoring_case(flight.identifier.as_str(), upper) {
        return true;
    }
    if let Some(cs) = &flight.callsign {
        if slice::eq_ignoring_case(cs.as_str(), upper) {
            return true;
        }
    }
    if metadata::known(&flight.alias_callsigns, upper) {
        return true;
    }
    match &flight.hex {
        Some(hex) => slice::eq_ignoring_case(hex.as_str(), upper),
        None => false,
    }
}

/// The place of the first flight that a query means.
pub fn find_flight_index(flights: &Vec<TrackedFlight>, query: &str) -> (r: Option<usize>)
    ensures
        match r {
            Some(i) => place_meant(super::flight_models(flights@), query@) == Some(i as int) && i
                < flights@.len(),
            None => place_meant(super::flight_models(flights@), query@) is None,
        },
{
    let upper = slice::to_upper(query);
    let ghost all = super::flight_models(flights@);
    let ghost p = |f: FlightModel| f.meant_by(slice::uppercased(query@));
    let mut i: usize = 0;
    while i < flights.len()
        invariant
            i <= flights@.len(),
            upper@ == slice::uppercased(query@),
            all == super::flight_models(flights@),
            p == |f: FlightModel| f.meant_by(slice::uppercased(query@)),
            forall|j: int| 0 <= j < i ==> !p(#[trigger] all[j]),
        decreases flights@.len() - i,
    {
        assert(all[i as int] == flights@[i as int]@);
        if is_meant(&flights[i], upper.as_str()) {
            proof {
                assert(p(all[i as int]));
                lists::lemma_first_at(all, p, i as int);
            }
            return Some(i);
        }
        i = i + 1;
    }
    proof {
        lists::lemma_first_none(all, p);
    }
    None
}

/// The callsigns under which the flight is looked for.
pub fn callsign_poll_candidates(flight: &TrackedFlight) -> (r: Vec<String>)
    ensures
        slice::texts(r@) == flight@.candidates(),
{
    let mut candidates: Vec<String> = Vec::new();
    assert(slice::texts(candidates@) =~= Seq::<Seq<char>>::empty());
    cache::push_cache_alias(&mut candidates, slice::borrow(&flight.callsign));
    cache::push_cache_alias(&mut candidates, super::identifier_callsign(&flight.identifier));
    cache::push_aliases(&mut candidates, &flight.alias_callsigns);
    candidates
}

/// Whether the aircraft may be the flight: always where an address was asked
/// for, else where it flies under a callsign of the flight.
pub fn aircraft_matches_tracked_callsign(ac: &NearbyAircraft, flight: &TrackedFlight) -> (b: bool)
    ensures
        b == (flight@.identifier is Hex || (ac@.callsign() is Some && flight@.goes_by(
            ac@.callsign()->0,
        ))),
{
    if flight.identifier.is_hex() {
        return true;
    }
    match ac.aircraft_callsign() {
        Some(cs) => advance::flight_matches_callsign(flight, cs.as_str()),
        None => false,
    }
}

/// Whether the flight is looked for by its address.
pub fn should_poll_by_hex(flight: &TrackedFlight) -> (b: bool)
    ensures
        b == flight@.polled_by_hex(),
{
    flight.identifier.is_hex() || (flight.hex.is_some() && (flight.hex_source.is_some()
        || flight.last_seen.is_some()))
}

/// Whether the departure is so far off that the flight is not looked for yet.
pub fn should_skip_adsb_for_strict_chill(flight: &TrackedFlight, now: Timestamp) -> (b: bool)
    requires
        flight@.valid(),
        now.valid(),
    ensures
        b == flight@.chills(now),
{
    match flight.scheduled_departure_at {
        Some(t) => t.nanos_since(now) > STRICT_CHILL as i128 * 1_000_000_000,
        None => false,
    }
}

/// One of the flights is already what an identifier, a callsign or an address
/// stands for.
pub open spec fn has_duplicate(
    flights: Seq<FlightModel>,
    identifier: IdentifierModel,
    callsign: Option<Seq<char>>,
    hex: Option<Seq<char>>,
) -> bool {
    exists|i: int|
        0 <= i < flights.len() && (#[trigger] flights[i]).collides(identifier, callsign, hex)
}

fn is_collision(
    flight: &TrackedFlight,
    identifier: &FlightIdentifier,
    callsign: Option<&str>,
    hex: Option<&str>,
) -> (b: bool)
    ensures
        b == flight@.collides(identifier@, slice::opt_str(callsign), slice::opt_str(hex)),
{
    if flight.identifier.same_as(identifier) {
        return true;
    }
    if identifier.matches(slice::borrow(&flight.callsign), slice::borrow(&flight.hex)) {
        return true;
    }
    if let Some(cs) = super::identifier_callsign(identifier) {
        if advance::candidate_callsign_matches_flight(flight, cs) {
            return true;
        }
    }
    if let Some(cs) = callsign {
        if advance::candidate_callsign_matches_flight(flight, cs) {
            return true;
        }
    }
    match (hex, &flight.hex) {
        (Some(a), Some(b)) => slice::eq_ignoring_case(b.as_str(), a),
        _ => false,
    }
}

/// Whether one of the flights is already what an identifier, a callsign or an
/// address stands for.
pub fn duplicate_tracking_exists(
    state: &FlightTrackerState,
    identifier: &FlightIdentifier,
    callsign: Option<&str>,
    hex: Option<&str>,
) -> (b: bool)
    ensures
        b == has_duplicate(
            state@.flights,
            identifier@,
            slice::opt_str(callsign),
            slice::opt_str(hex),
        ),
{
    let mut i: usize = 0;
    while i < state.flights.len()
        invariant
            i <= state.flights@.len(),
            forall|j: int|
                0 <= j < i ==> !(#[trigger] state@.flights[j]).collides(
                    identifier@,
                    slice::opt_str(callsign),
                    slice::opt_str(hex),
                ),
        decreases state.flights@.len() - i,
    {
        assert(state@.flights[i as int] == state.flights@[i as int]@);
        if is_collision(&state.flights[i], identifier, callsign, hex) {
            return true;
        }
        i = i + 1;
    }
    false
}

/// The answer to a request that starts a track.
pub open spec fn started_text(f: FlightModel, info: Option<Seq<char>>, fallback: bool) -> Seq<char> {
    let base = super::format::track_started_text(f);
    let told = match info {
        Some(s) => base + " | "@ + s,
        None => base,
    };
    if fallback {
        told + " | Provider-Hinweis: AviationStack down/keine Daten, Status: ADS-B-only"@
    } else {
        told
    }
}

/// The answer to a request that starts a track.
pub fn track_started_response(
    flight: &TrackedFlight,
    aviationstack_info: Option<&str>,
    aviationstack_fallback: bool,
) -> (r: String)
    ensures
        r@ == started_text(flight@, slice::opt_str(aviationstack_info), aviationstack_fallback),
{
    let mut response = super::format::msg_track_started(flight);
    if let Some(info) = aviationstack_info {
        response.append(" | ");
        response.append(info);
    }
    if aviationstack_fallback {
        response.append(
            " | Provider-Hinweis: AviationStack down/keine Daten, Status: ADS-B-only",
        );
    }
    response
}

/// A flight that was removed.
#[derive(Debug)]
pub struct Removed {
    pub label: String,
    pub journal: FlightTrackerDebugEvent,
}

impl TrackerModel {
    /// Every instant that the tracker holds lies inside the calendar.
    pub open spec fn valid(self) -> bool {
        &&& forall|i: int| 0 <= i < self.flights.len() ==> (#[trigger] self.flights[i]).valid()
        &&& forall|i: int|
            0 <= i < self.cache.len() && (#[trigger] self.cache[i]).metadata is Some
                ==> self.cache[i].metadata->0.valid()
    }

    /// The tracker without the flight at a place.
    pub open spec fn without(self, i: int) -> TrackerModel {
        TrackerModel { flights: self.flights.remove(i), ..self }
    }
}

/// Removes the flight that a query means.
pub fn remove_flight_at(
    state: &mut FlightTrackerState,
    query: &str,
    source: &str,
    now: Timestamp,
) -> (r: Option<Removed>)
    requires
        old(state)@.valid(),
        now.valid(),
    ensures
        match place_meant(old(state)@.flights, query@) {
            Some(i) => {
                let f = old(state)@.flights[i];
                &&& r is Some
                &&& r->0.label@ == f.label()
                &&& r->0.journal@ == debug_journal::removal_event(f, source@, f.last_seen_age(now))
                &&& final(state)@ == old(state)@.without(i)
            },
            None => r is None && final(state)@ == old(state)@,
        },
        final(state)@.valid(),
{
    let idx: usize = match find_flight_index(&state.flights, query) {
        Some(i) => i,
        None => return None,
    };
    assert(state@.flights[idx as int] == state.flights@[idx as int]@);
    let label = state.flights[idx].label().to_owned();
    let age = advance::last_seen_age_secs(&state.flights[idx], now);
    let journal = FlightTrackerDebugEvent::tracking_removal(&state.flights[idx], source, age);
    state.flights.remove(idx);
    assert(state@ =~= old(state)@.without(idx as int));
    assert forall|k: int| 0 <= k < state@.flights.len() implies (
    #[trigger] state@.flights[k]).valid() by {
        assert(state@.flights[k] == old(state)@.flights[if k < idx {
            k
        } else {
            k + 1
        }]);
    }
    Some(Removed { label, journal })
}

/// What comes of a request to end a track.
#[derive(Debug)]
pub struct UntrackOutcome {
    pub reply: String,
    /// The entry about the removal, where the flight was removed.
    pub journal: Option<FlightTrackerDebugEvent>,
}

/// The answer where no flight is meant.
pub open spec fn unknown_text(query: Seq<char>) -> Seq<char> {
    query + " nicht gefunden | Status: kein aktiver Track FDM"@
}

fn unknown_reply(query: &str) -> (r: String)
    ensures
        r@ == unknown_text(query@),
{
    let mut r = query.to_owned();
    r.append(" nicht gefunden | Status: kein aktiver Track FDM");
    r
}

/// What comes of a wish to end a track.
pub struct UntrackModel {
    pub reply: Seq<char>,
    pub journal: Option<EventModel>,
}

impl View for UntrackOutcome {
    type V = UntrackModel;

    open spec fn view(&self) -> UntrackModel {
        UntrackModel {
            reply: self.reply@,
            journal: match self.journal {
                Some(e) => Some(e@),
                None => None,
            },
        }
    }
}

impl TrackerModel {
    /// The tracker after a wish to end a track, and what comes of it: who started
    /// the track may end it, and moderators.
    pub open spec fn untracked(
        self,
        query: Seq<char>,
        requested_by: Seq<char>,
        is_mod: bool,
        now: Timestamp,
    ) -> (TrackerModel, UntrackModel) {
        match place_meant(self.flights, query) {
            Some(i) => {
                let f = self.flights[i];
                if f.tracked_by == requested_by || is_mod {
                    (
                        self.without(i),
                        UntrackModel {
                            reply: "Untrack entfernt: "@ + f.label()
                                + " | Status: nicht mehr getrackt Okayge"@,
                            journal: Some(
                                debug_journal::removal_event(
                                    f,
                                    requested_by,
                                    f.last_seen_age(now),
                                ),
                            ),
                        },
                    )
                } else {
                    (
                        self,
                        UntrackModel {
                            reply: "Keine Berechtigung: nur Tracker oder Mods können diesen Flug entfernen FDM"@,
                            journal: None,
                        },
                    )
                }
            },
            None => (self, UntrackModel { reply: unknown_text(query), journal: None }),
        }
    }

    /// The answer to a question about the status of one flight, or of all.
    pub open spec fn status_answer(self, query: Option<Seq<char>>, now: Timestamp) -> Seq<char> {
        match query {
            None => super::format::list_text(self.flights),
            Some(q) => match place_meant(self.flights, q) {
                Some(i) => super::format::status_text(self.flights[i], now),
                None => unknown_text(q),
            },
        }
    }
}

/// Ends a track, if the user may do so: who started it may, and moderators.
pub fn handle_untrack(
    state: &mut FlightTrackerState,
    identifier: &str,
    requested_by: &str,
    is_mod: bool,
    now: Timestamp,
) -> (r: UntrackOutcome)
    requires
        old(state)@.valid(),
        now.valid(),
    ensures
        (final(state)@, r@) == old(state)@.untracked(identifier@, requested_by@, is_mod, now),
{
    let idx: usize = match find_flight_index(&state.flights, identifier) {
        Some(i) => i,
        None => return UntrackOutcome { reply: unknown_reply(identifier), journal: None },
    };
    assert(state@.flights[idx as int] == state.flights@[idx as int]@);
    if !slice::same(state.flights[idx].tracked_by.as_str(), requested_by) && !is_mod {
        return UntrackOutcome {
            reply: "Keine Berechtigung: nur Tracker oder Mods können diesen Flug entfernen FDM".to_owned(),
            journal: None,
        };
    }
    match remove_flight_at(state, identifier, requested_by, now) {
        Some(removed) => {
            let mut reply = "Untrack entfernt: ".to_owned();
            reply.append(removed.label.as_str());
            reply.append(" | Status: nicht mehr getrackt Okayge");
            UntrackOutcome { reply, journal: Some(removed.journal) }
        },
        None => UntrackOutcome { reply: unknown_reply(identifier), journal: None },
    }
}

/// Answers a question about the status of one flight, or of all.
pub fn handle_status(state: &FlightTrackerState, identifier: Option<&str>, now: Timestamp) -> (r:
    String)
    requires
        state@.valid(),
        now.valid(),
    ensures
        r@ == state@.status_answer(slice::opt_str(identifier), now),
{
    match identifier {
        None => super::format::msg_flights_list(state.flights.as_slice()),
        Some(id) => match find_flight_index(&state.flights, id) {
            Some(i) => {
                assert(state@.flights[i as int] == state.flights@[i as int]@);
                super::format::msg_flight_status(&state.flights[i], now)
            },
            None => unknown_reply(id),
        },
    }
}

/// Where the callsign of a flight that is asked about comes from.
#[derive(Debug)]
pub enum CallsignSource {
    Known(Option<String>),
    /// The callsign is to be resolved first.
    Resolve(String),
}

/// Finds the callsign for a question about a flight: that of the tracked
/// flight, else the requested one once it has been resolved.
pub fn info_callsign(state: &FlightTrackerState, identifier: &FlightIdentifier) -> (r:
    CallsignSource)
    ensures
        ({
            let place = place_meant(state@.flights, identifier@.text());
            let callsign = match place {
                Some(i) => state@.flights[i].callsign,
                None => None,
            };
            match r {
                CallsignSource::Known(cs) => slice::opt_text(cs) == callsign && (callsign is Some
                    || identifier@ is Hex),
                CallsignSource::Resolve(cs) => callsign is None && identifier@.callsign() == Some(
                    cs@,
                ),
            }
        }),
{
    if let Some(i) = find_flight_index(&state.flights, identifier.as_str()) {
        assert(state@.flights[i as int] == state.flights@[i as int]@);
        if state.flights[i].callsign.is_some() {
            return CallsignSource::Known(slice::clone_opt(&state.flights[i].callsign));
        }
    }
    match identifier {
        FlightIdentifier::Callsign(cs) => CallsignSource::Resolve(cs.clone()),
        FlightIdentifier::Hex(_) => CallsignSource::Known(None),
    }
}

/// The answer to a question about a flight.
pub open spec fn info_answer(
    identifier: IdentifierModel,
    lookup: LookupModel,
    provider_enabled: bool,
) -> Seq<char> {
    if lookup.metadata is Some {
        lookup.metadata->0.info_text()
    } else if lookup.failed {
        "Provider-Problem: AviationStack down | Grund: Anfrage fehlgeschlagen FDM"@
    } else if lookup.checked || provider_enabled {
        identifier.text()
            + " nicht bei AviationStack gefunden | Grund: keine Provider-Daten FDM"@
    } else {
        "Provider-Problem: AviationStack down | Grund: nicht konfiguriert FDM"@
    }
}

/// Answers a question about a flight once its metadata has been looked up.
pub fn info_response(
    identifier: &FlightIdentifier,
    lookup: &AviationstackLookup,
    provider_enabled: bool,
) -> (r: String)
    requires
        lookup.metadata is Some ==> lookup.metadata->0@.valid(),
    ensures
        r@ == info_answer(identifier@, lookup@, provider_enabled),
{
    if let Some(metadata) = &lookup.metadata {
        return super::format::msg_aviationstack_info(metadata);
    }
    if lookup.failed {
        return "Provider-Problem: AviationStack down | Grund: Anfrage fehlgeschlagen FDM".to_owned();
    }
    if lookup.checked || provider_enabled {
        let mut r = identifier.as_str().to_owned();
        r.append(" nicht bei AviationStack gefunden | Grund: keine Provider-Daten FDM");
        return r;
    }
    "Provider-Problem: AviationStack down | Grund: nicht konfiguriert FDM".to_owned()
}

} // verus!
