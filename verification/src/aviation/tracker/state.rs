//! Repair of a tracker state that was stored by an earlier run, and the view of
//! it for the dashboard.

use vstd::prelude::*;

use super::{
    FlightModel, FlightTrackerState, HexSource, TargetConfirmation, TrackedFlight, TrackerModel,
};
use crate::decimal::Decimal;
use crate::text::slice;
use crate::time;
use crate::time::Timestamp;

verus! {

/// The number of flights with a property.
pub open spec fn how_many(flights: Seq<FlightModel>, p: spec_fn(FlightModel) -> bool) -> nat
    decreases flights.len(),
{
    if flights.len() == 0 {
        0
    } else {
        how_many(flights.drop_last(), p) + if p(flights.last()) {
            1nat
        } else {
            0nat
        }
    }
}

/// Where no flight has the property, none is counted.
pub proof fn lemma_how_many_none(flights: Seq<FlightModel>, p: spec_fn(FlightModel) -> bool)
    requires
        forall|i: int| 0 <= i < flights.len() ==> !p(#[trigger] flights[i]),
    ensures
        how_many(flights, p) == 0,
    decreases flights.len(),
{
    if flights.len() > 0 {
        lemma_how_many_none(flights.drop_last(), p);
    }
}

impl FlightModel {
    /// The flight was asked for by callsign and has an address that nobody
    /// vouches for: it was never seen, and the address is not from metadata.
    pub open spec fn has_untrusted_hex(self) -> bool {
        self.identifier is Callsign && self.last_seen is None && self.hex is Some
            && self.hex_source != Some(HexSource::AviationStack)
    }

    pub open spec fn without_untrusted_hex(self) -> FlightModel {
        if self.has_untrusted_hex() {
            FlightModel { hex: None, hex_source: None, ..self }
        } else {
            self
        }
    }

    /// The flight has been seen, and its confirmation does not say so.
    pub open spec fn lacks_confirmation(self) -> bool {
        self.target_confirmation is Pending && self.last_seen is Some
    }

    pub open spec fn with_confirmation(self) -> FlightModel {
        if self.lacks_confirmation() {
            FlightModel {
                target_confirmation: if self.identifier is Hex {
                    TargetConfirmation::InferredByAssignedHex
                } else {
                    TargetConfirmation::ConfirmedByCallsign
                },
                ..self
            }
        } else {
            self
        }
    }

    /// The flight has been seen, and it is not known when it was visible.
    pub open spec fn lacks_anchor(self) -> bool {
        self.last_visible_at is None && self.last_seen is Some
    }

    pub open spec fn with_anchor(self) -> FlightModel {
        if self.lacks_anchor() {
            FlightModel {
                last_visible_at: Some(
                    match self.last_adsb_poll_at {
                        Some(t) => super::schedule::latest(t, self.last_seen->0),
                        None => self.last_seen->0,
                    },
                ),
                ..self
            }
        } else {
            self
        }
    }
}

impl TrackerModel {
    pub open spec fn without_untrusted_hexes(self) -> TrackerModel {
        TrackerModel {
            flights: self.flights.map_values(|f: FlightModel| f.without_untrusted_hex()),
            ..self
        }
    }

    pub open spec fn with_confirmations(self) -> TrackerModel {
        TrackerModel {
            flights: self.flights.map_values(|f: FlightModel| f.with_confirmation()),
            ..self
        }
    }

    pub open spec fn with_anchors(self) -> TrackerModel {
        TrackerModel { flights: self.flights.map_values(|f: FlightModel| f.with_anchor()), ..self }
    }
}

/// Drops addresses of flights that were asked for by callsign and never seen,
/// unless they are from metadata. Returns how many.
pub fn clear_pending_callsign_hexes(state: &mut FlightTrackerState) -> (cleared: usize)
    ensures
        final(state)@ == old(state)@.without_untrusted_hexes(),
        cleared == how_many(old(state)@.flights, |f: FlightModel| f.has_untrusted_hex()),
{
    let ghost before = state@.flights;
    let ghost p = |f: FlightModel| f.has_untrusted_hex();
    let mut cleared: usize = 0;
    let mut i: usize = 0;
    while i < state.flights.len()
        invariant
            i <= state.flights@.len(),
            state.flights@.len() == before.len(),
            before == old(state)@.flights,
            state.flight_info_cache == old(state).flight_info_cache,
            p == |f: FlightModel| f.has_untrusted_hex(),
            cleared <= i,
            cleared == how_many(before.take(i as int), p),
            forall|j: int|
                0 <= j < i ==> (#[trigger] state.flights@[j])@ == before[j].without_untrusted_hex(),
            forall|j: int|
                i <= j < before.len() ==> (#[trigger] state.flights@[j])@ == before[j],
        decreases state.flights@.len() - i,
    {
        let ghost this = state.flights@[i as int]@;
        assert(before.take(i + 1).drop_last() =~= before.take(i as int));
        if !state.flights[i].identifier.is_hex() && state.flights[i].last_seen.is_none()
            && state.flights[i].hex.is_some() && state.flights[i].hex_source != Some(
            HexSource::AviationStack,
        ) {
            assert(this.has_untrusted_hex());
            state.flights[i].hex = None;
            state.flights[i].hex_source = None;
            cleared = cleared + 1;
        }
        assert(state.flights@[i as int]@ == this.without_untrusted_hex());
        i = i + 1;
    }
    assert(before.take(i as int) =~= before);
    assert(state@ =~= old(state)@.without_untrusted_hexes());
    cleared
}

/// Gives flights that have been seen the confirmation that they lack. Returns
/// how many.
pub fn migrate_target_confirmations(state: &mut FlightTrackerState) -> (migrated: usize)
    ensures
        final(state)@ == old(state)@.with_confirmations(),
        migrated == how_many(old(state)@.flights, |f: FlightModel| f.lacks_confirmation()),
{
    let ghost before = state@.flights;
    let ghost p = |f: FlightModel| f.lacks_confirmation();
    let mut migrated: usize = 0;
    let mut i: usize = 0;
    while i < state.flights.len()
        invariant
            i <= state.flights@.len(),
            state.flights@.len() == before.len(),
            before == old(state)@.flights,
            state.flight_info_cache == old(state).flight_info_cache,
            p == |f: FlightModel| f.lacks_confirmation(),
            migrated <= i,
            migrated == how_many(before.take(i as int), p),
            forall|j: int|
                0 <= j < i ==> (#[trigger] state.flights@[j])@ == before[j].with_confirmation(),
            forall|j: int|
                i <= j < before.len() ==> (#[trigger] state.flights@[j])@ == before[j],
        decreases state.flights@.len() - i,
    {
        let ghost this = state.flights@[i as int]@;
        assert(before.take(i + 1).drop_last() =~= before.take(i as int));
        if state.flights[i].target_confirmation == TargetConfirmation::Pending
            && state.flights[i].last_seen.is_some() {
            assert(this.lacks_confirmation());
            state.flights[i].target_confirmation = if state.flights[i].identifier.is_hex() {
                TargetConfirmation::InferredByAssignedHex
            } else {
                TargetConfirmation::ConfirmedByCallsign
            };
            migrated = migrated + 1;
        }
        assert(state.flights@[i as int]@ == this.with_confirmation());
        i = i + 1;
    }
    assert(before.take(i as int) =~= before);
    assert(state@ =~= old(state)@.with_confirmations());
    migrated
}

/// Seeds the visibility of flights that have been seen and lack it. The last
/// poll is preferred where it is fresher than the last confirmed sighting, so
/// that the time to removal does not start in the past. Returns how many.
pub fn backfill_visible_anchor(state: &mut FlightTrackerState) -> (backfilled: usize)
    ensures
        final(state)@ == old(state)@.with_anchors(),
        backfilled == how_many(old(state)@.flights, |f: FlightModel| f.lacks_anchor()),
{
    let ghost before = state@.flights;
    let ghost p = |f: FlightModel| f.lacks_anchor();
    let mut backfilled: usize = 0;
    let mut i: usize = 0;
    while i < state.flights.len()
        invariant
            i <= state.flights@.len(),
            state.flights@.len() == before.len(),
            before == old(state)@.flights,
            state.flight_info_cache == old(state).flight_info_cache,
            p == |f: FlightModel| f.lacks_anchor(),
            backfilled <= i,
            backfilled == how_many(before.take(i as int), p),
            forall|j: int|
                0 <= j < i ==> (#[trigger] state.flights@[j])@ == before[j].with_anchor(),
            forall|j: int|
                i <= j < before.len() ==> (#[trigger] state.flights@[j])@ == before[j],
        decreases state.flights@.len() - i,
    {
        let ghost this = state.flights@[i as int]@;
        assert(before.take(i + 1).drop_last() =~= before.take(i as int));
        if state.flights[i].last_visible_at.is_none() {
            if let Some(last_seen) = state.flights[i].last_seen {
                assert(this.lacks_anchor());
                let anchor = match state.flights[i].last_adsb_poll_at {
                    Some(t) => if t.ticks >= last_seen.ticks {
                        t
                    } else {
                        last_seen
                    },
                    None => last_seen,
                };
                state.flights[i].last_visible_at = Some(anchor);
                backfilled = backfilled + 1;
            }
        }
        assert(state.flights@[i as int]@ == this.with_anchor());
        i = i + 1;
    }
    assert(before.take(i as int) =~= before);
    assert(state@ =~= old(state)@.with_anchors());
    backfilled
}

/// What was repaired in a stored state.
#[derive(Clone, Copy, Debug, PartialEq, Eq, Structural)]
pub struct Repairs {
    pub cleared_pending_hexes: usize,
    pub migrated_target_confirmations: usize,
    pub backfilled_visible_anchors: usize,
}

/// Repairs a stored state.
pub fn restore(state: &mut FlightTrackerState) -> (r: Repairs)
    ensures
        final(state)@ == old(
            state,
        )@.without_untrusted_hexes().with_confirmations().with_anchors(),
        r.cleared_pending_hexes == how_many(
            old(state)@.flights,
            |f: FlightModel| f.has_untrusted_hex(),
        ),
        r.migrated_target_confirmations == how_many(
            old(state)@.without_untrusted_hexes().flights,
            |f: FlightModel| f.lacks_confirmation(),
        ),
        r.backfilled_visible_anchors == how_many(
            old(state)@.without_untrusted_hexes().with_confirmations().flights,
            |f: FlightModel| f.lacks_anchor(),
        ),
{
    let cleared_pending_hexes: usize = clear_pending_callsign_hexes(state);
    let migrated_target_confirmations: usize = migrate_target_confirmations(state);
    let backfilled_visible_anchors: usize = backfill_visible_anchor(state);
    Repairs { cleared_pending_hexes, migrated_target_confirmations, backfilled_visible_anchors }
}

/// A repaired state needs no repair: each step finds nothing to do a second
/// time.
pub proof fn law_repair_is_idempotent(state: TrackerModel)
    ensures
        how_many(
            state.without_untrusted_hexes().flights,
            |f: FlightModel| f.has_untrusted_hex(),
        ) == 0,
        how_many(state.with_confirmations().flights, |f: FlightModel| f.lacks_confirmation()) == 0,
        how_many(state.with_anchors().flights, |f: FlightModel| f.lacks_anchor()) == 0,
{
    lemma_how_many_none(
        state.without_untrusted_hexes().flights,
        |f: FlightModel| f.has_untrusted_hex(),
    );
    lemma_how_many_none(
        state.with_confirmations().flights,
        |f: FlightModel| f.lacks_confirmation(),
    );
    lemma_how_many_none(state.with_anchors().flights, |f: FlightModel| f.lacks_anchor());
}

/// What the dashboard shows of a flight.
#[derive(Debug)]
pub struct TrackedFlightView {
    pub identifier: String,
    pub callsign: Option<String>,
    pub owner_login: String,
    pub phase: String,
    pub altitude_ft: Option<i64>,
    pub ground_speed_kts: Option<Decimal>,
    pub last_seen_secs_ago: Option<u64>,
}

/// What the view of a flight holds.
pub struct FlightViewModel {
    pub identifier: Seq<char>,
    pub callsign: Option<Seq<char>>,
    pub owner_login: Seq<char>,
    pub phase: Seq<char>,
    pub altitude_ft: Option<i64>,
    pub ground_speed_kts: Option<Decimal>,
    pub last_seen_secs_ago: Option<u64>,
}

impl View for TrackedFlightView {
    type V = FlightViewModel;

    open spec fn view(&self) -> FlightViewModel {
        FlightViewModel {
            identifier: self.identifier@,
            callsign: slice::opt_text(self.callsign),
            owner_login: self.owner_login@,
            phase: self.phase@,
            altitude_ft: self.altitude_ft,
            ground_speed_kts: self.ground_speed_kts,
            last_seen_secs_ago: self.last_seen_secs_ago,
        }
    }
}

impl FlightModel {
    /// What the dashboard shows of the flight. It goes by its callsign, else by
    /// its address, else by what was asked for.
    pub open spec fn dashboard_view(self, now: Timestamp) -> FlightViewModel {
        FlightViewModel {
            identifier: if self.callsign is Some {
                self.callsign->0
            } else if self.hex is Some {
                self.hex->0
            } else {
                self.identifier.text()
            },
            callsign: self.callsign,
            owner_login: self.tracked_by,
            phase: self.shown_phase(),
            altitude_ft: self.altitude_ft,
            ground_speed_kts: self.ground_speed_kts,
            last_seen_secs_ago: match self.last_seen_age(now) {
                Some(n) => Some(n as u64),
                None => None,
            },
        }
    }
}

fn view_of(f: &TrackedFlight, now: Timestamp) -> (r: TrackedFlightView)
    requires
        f@.valid(),
        now.valid(),
    ensures
        r@ == f@.dashboard_view(now),
{
    let identifier = match (&f.callsign, &f.hex) {
        (Some(s), _) => s.clone(),
        (None, Some(s)) => s.clone(),
        (None, None) => f.identifier.as_str().to_owned(),
    };
    TrackedFlightView {
        identifier,
        callsign: slice::clone_opt(&f.callsign),
        owner_login: f.tracked_by.clone(),
        phase: f.shown_phase().to_owned(),
        altitude_ft: f.altitude_ft,
        ground_speed_kts: f.ground_speed_kts,
        last_seen_secs_ago: match super::advance::last_seen_age_secs(f, now) {
            Some(n) => Some(n as u64),
            None => None,
        },
    }
}

/// What the dashboard shows of all flights.
pub fn build_flight_view(state: &FlightTrackerState, now: Timestamp) -> (r: Vec<TrackedFlightView>)
    requires
        forall|i: int| 0 <= i < state@.flights.len() ==> (#[trigger] state@.flights[i]).valid(),
        now.valid(),
    ensures
        r@.len() == state@.flights.len(),
        forall|i: int|
            0 <= i < r@.len() ==> (#[trigger] r@[i])@ == state@.flights[i].dashboard_view(now),
{
    let mut r: Vec<TrackedFlightView> = Vec::new();
    let mut i: usize = 0;
    while i < state.flights.len()
        invariant
            i <= state.flights@.len(),
            now.valid(),
            forall|j: int| 0 <= j < state@.flights.len() ==> (#[trigger] state@.flights[j]).valid(),
            r@.len() == i,
            forall|j: int| 0 <= j < i ==> (#[trigger] r@[j])@ == state@.flights[j].dashboard_view(now),
        decreases state.flights@.len() - i,
    {
        assert(state@.flights[i as int] == state.flights@[i as int]@);
        r.push(view_of(&state.flights[i], now));
        i = i + 1;
    }
    r
}

} // verus!
