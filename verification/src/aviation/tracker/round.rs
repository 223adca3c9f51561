//! One round of polls over all tracked flights.
//!
//! A round begins with a plan of lookups. What each of them brings is taken
//! into account in the order in which it arrives, and at the end the flights
//! that are over are removed.

use vstd::prelude::*;

use super::advance;
use super::advance::{Emit, EmitModel, FlightUpdate, Observation, UpdateModel};
use super::commands;
use super::debug_journal;
use super::debug_journal::{EventModel, FlightTrackerDebugEvent};
use super::laws;
use super::request;
use super::request::{PollQuery, QueryModel, RouteOutcome};
use super::schedule;
use super::schedule::PollReadiness;
use super::{
    FlightIdentifier, FlightModel, FlightTrackerState, IdentifierModel, TrackedFlight, TrackerModel,
};
use crate::aviation::airports::Airports;
use crate::lists;
use crate::text::slice;
use crate::time::Timestamp;

verus! {

/// A lookup that is to be made. One without callsigns finds nothing.
#[derive(Debug)]
pub struct PollPlan {
    pub identifier: FlightIdentifier,
    pub query: PollQuery,
}

/// A lookup that is to be made.
pub struct PlanModel {
    pub identifier: IdentifierModel,
    pub query: QueryModel,
}

impl View for PollPlan {
    type V = PlanModel;

    open spec fn view(&self) -> PlanModel {
        PlanModel { identifier: self.identifier@, query: self.query@ }
    }
}

pub open spec fn plan_models(v: Seq<PollPlan>) -> Seq<PlanModel> {
    v.map_values(|p: PollPlan| p@)
}

pub open spec fn identifier_models(v: Seq<FlightIdentifier>) -> Seq<IdentifierModel> {
    v.map_values(|i: FlightIdentifier| i@)
}

/// What a round has come to so far.
#[derive(Debug)]
pub struct PollRound {
    pub now: Timestamp,
    /// The messages that are to be sent, in order.
    pub messages: Vec<String>,
    /// The flights that are over.
    pub removals: Vec<FlightIdentifier>,
    /// The state is to be stored.
    pub changed: bool,
}

/// What a round has come to so far.
#[verifier::ext_equal]
pub struct RoundModel {
    pub now: Timestamp,
    pub messages: Seq<Seq<char>>,
    pub removals: Seq<IdentifierModel>,
    pub changed: bool,
}

impl View for PollRound {
    type V = RoundModel;

    open spec fn view(&self) -> RoundModel {
        RoundModel {
            now: self.now,
            messages: slice::texts(self.messages@),
            removals: identifier_models(self.removals@),
            changed: self.changed,
        }
    }
}

/// The beginning of a round.
#[derive(Debug)]
pub struct RoundStart {
    pub round: PollRound,
    pub plans: Vec<PollPlan>,
    pub journal: Vec<FlightTrackerDebugEvent>,
}

/// The beginning of a round.
#[verifier::ext_equal]
pub struct StartModel {
    pub round: RoundModel,
    pub plans: Seq<PlanModel>,
    pub journal: Seq<EventModel>,
}

impl View for RoundStart {
    type V = StartModel;

    open spec fn view(&self) -> StartModel {
        StartModel {
            round: self.round@,
            plans: plan_models(self.plans@),
            journal: debug_journal::event_models(self.journal@),
        }
    }
}

impl FlightModel {
    /// How the flight is looked for.
    pub open spec fn plan(self) -> PlanModel {
        PlanModel {
            identifier: self.identifier,
            query: if self.polled_by_hex() {
                QueryModel::Hex(
                    match self.hex {
                        Some(hex) => hex,
                        None => self.identifier.text(),
                    },
                )
            } else {
                QueryModel::Callsigns(self.candidates())
            },
        }
    }
}

/// The beginning of a round: flights that are due are looked for, flights that
/// never appeared are over.
pub open spec fn starting(flights: Seq<FlightModel>, now: Timestamp) -> StartModel
    decreases flights.len(),
{
    if flights.len() == 0 {
        StartModel {
            round: RoundModel {
                now,
                messages: Seq::empty(),
                removals: Seq::empty(),
                changed: false,
            },
            plans: Seq::empty(),
            journal: Seq::empty(),
        }
    } else {
        let s = starting(flights.drop_last(), now);
        let f = flights.last();
        match f.readiness(now) {
            PollReadiness::Due => StartModel { plans: s.plans.push(f.plan()), ..s },
            PollReadiness::NotDue(_) => s,
            PollReadiness::Expired => StartModel {
                round: RoundModel {
                    now,
                    messages: s.round.messages.push(
                        advance::emit_text(f, EmitModel::PendingExpired, now),
                    ),
                    removals: s.round.removals.push(f.identifier),
                    changed: true,
                },
                journal: s.journal.push(
                    debug_journal::removal_event(f, "pending_expired"@, None),
                ),
                ..s
            },
        }
    }
}

fn plan_of(flight: &TrackedFlight) -> (r: PollPlan)
    ensures
        r@ == flight@.plan(),
{
    let identifier = flight.identifier.duplicate();
    if commands::should_poll_by_hex(flight) {
        let hex = match &flight.hex {
            Some(hex) => hex.clone(),
            None => flight.identifier.as_str().to_owned(),
        };
        PollPlan { identifier, query: PollQuery::Hex(hex) }
    } else {
        PollPlan {
            identifier,
            query: PollQuery::Callsigns(commands::callsign_poll_candidates(flight)),
        }
    }
}

/// Begins a round.
pub fn begin_round(state: &FlightTrackerState, now: Timestamp) -> (r: RoundStart)
    requires
        state@.valid(),
        now.valid(),
    ensures
        r@ == starting(state@.flights, now),
{
    let mut r = RoundStart {
        round: PollRound { now, messages: Vec::new(), removals: Vec::new(), changed: false },
        plans: Vec::new(),
        journal: Vec::new(),
    };
    let mut i: usize = 0;
    assert(r@ =~= starting(state@.flights.take(0), now));
    while i < state.flights.len()
        invariant
            i <= state.flights@.len(),
            state@.valid(),
            now.valid(),
            r.round.now == now,
            r@ == starting(state@.flights.take(i as int), now),
        decreases state.flights@.len() - i,
    {
        let flight = &state.flights[i];
        let ghost s = r@;
        assert(state@.flights[i as int] == flight@);
        assert(state@.flights.take(i + 1).drop_last() =~= state@.flights.take(i as int));
        assert(state@.flights.take(i + 1).last() == flight@);
        match schedule::poll_readiness(flight, now) {
            PollReadiness::Due => {
                r.plans.push(plan_of(flight));
                assert(r@.plans =~= s.plans.push(flight@.plan()));
            },
            PollReadiness::NotDue(_) => {},
            PollReadiness::Expired => {
                let message = advance::format_emit(flight, &Emit::PendingExpired, now);
                let entry = FlightTrackerDebugEvent::tracking_removal(
                    flight,
                    "pending_expired",
                    None,
                );
                let ghost text = message@;
                let ghost event = entry@;
                r.journal.push(entry);
                r.round.messages.push(message);
                r.round.removals.push(flight.identifier.duplicate());
                r.round.changed = true;
                assert(r@.journal =~= s.journal.push(event));
                assert(r@.round.messages =~= s.round.messages.push(text));
                assert(r@.round.removals =~= s.round.removals.push(flight@.identifier));
            },
        }
        assert(r@ =~= starting(state@.flights.take(i + 1), now));
        i = i + 1;
    }
    assert(state@.flights.take(i as int) =~= state@.flights);
    r
}

impl TrackerModel {
    /// The tracker with a flight replaced.
    pub open spec fn with_flight(self, i: int, f: FlightModel) -> TrackerModel {
        TrackerModel { flights: self.flights.update(i, f), ..self }
    }
}

/// The messages of an update, about a flight as it is now.
pub open spec fn texts_of(f: FlightModel, emits: Seq<EmitModel>, now: Timestamp) -> Seq<Seq<char>> {
    emits.map_values(|e: EmitModel| advance::emit_text(f, e, now))
}

impl RoundModel {
    /// The round once the update of a flight has been taken into account.
    pub open spec fn concluded(self, f: FlightModel, update: UpdateModel) -> RoundModel {
        RoundModel {
            messages: self.messages + texts_of(f, update.emits, self.now),
            removals: if update.removal is Some {
                self.removals.push(f.identifier)
            } else {
                self.removals
            },
            ..self
        }
    }
}

impl PollRound {
    /// Takes what a lookup brought into account. A flight that is not tracked
    /// any more is passed over.
    pub fn observe(
        &mut self,
        state: &mut FlightTrackerState,
        identifier: &FlightIdentifier,
        obs: &Observation,
    ) -> (r: Option<FlightUpdate>)
        requires
            old(state)@.valid(),
            old(self)@.now.valid(),
            obs@.valid(),
        ensures
            final(state)@.valid(),
            match commands::place_of(old(state)@.flights, identifier@) {
                Some(i) => {
                    let (f, update) = old(state)@.flights[i].advanced(obs@, old(self)@.now);
                    &&& r is Some
                    &&& r->0@ == update
                    &&& laws::emits_valid(update)
                    &&& final(state)@ == old(state)@.with_flight(i, f)
                    &&& final(self)@ == (RoundModel { changed: true, ..old(self)@ })
                },
                None => {
                    &&& r is None
                    &&& final(state)@ == old(state)@
                    &&& final(self)@ == old(self)@
                },
            },
    {
        let i: usize = match commands::find_index_by_identifier(&state.flights, identifier) {
            Some(i) => i,
            None => return None,
        };
        let ghost before = state@;
        assert(before.flights[i as int] == state.flights@[i as int]@);
        proof {
            laws::lemma_advanced_valid(before.flights[i as int], obs@, self.now);
        }
        let update = advance::advance_flight(&mut state.flights[i], obs, self.now);
        self.changed = true;
        assert(state@ =~= before.with_flight(
            i as int,
            before.flights[i as int].advanced(obs@, self.now).0,
        ));
        Some(update)
    }

    /// Takes the outcome of a route lookup into account, and returns the entry
    /// about it.
    pub fn take_route(
        &self,
        state: &mut FlightTrackerState,
        identifier: &FlightIdentifier,
        callsign: &str,
        outcome: &RouteOutcome,
        airports: &Airports,
    ) -> (r: Option<FlightTrackerDebugEvent>)
        requires
            old(state)@.valid(),
        ensures
            final(state)@.valid(),
            match commands::place_of(old(state)@.flights, identifier@) {
                Some(i) => {
                    let f = request::with_route(old(state)@.flights[i], outcome@, airports@);
                    &&& r is Some
                    &&& r->0@ == request::route_event(f, callsign@, outcome@)
                    &&& final(state)@ == old(state)@.with_flight(i, f)
                },
                None => r is None && final(state)@ == old(state)@,
            },
    {
        let i: usize = match commands::find_index_by_identifier(&state.flights, identifier) {
            Some(i) => i,
            None => return None,
        };
        let ghost before = state@;
        assert(before.flights[i as int] == state.flights@[i as int]@);
        let entry = request::take_route(&mut state.flights[i], callsign, outcome, airports);
        assert(state@ =~= before.with_flight(
            i as int,
            request::with_route(before.flights[i as int], outcome@, airports@),
        ));
        Some(entry)
    }

    /// Collects the messages of an update, and the flight where it is over.
    pub fn conclude(
        &mut self,
        state: &FlightTrackerState,
        identifier: &FlightIdentifier,
        update: &FlightUpdate,
    )
        requires
            laws::emits_valid(update@),
            old(self)@.now.valid(),
        ensures
            match commands::place_of(state@.flights, identifier@) {
                Some(i) => final(self)@ == old(self)@.concluded(state@.flights[i], update@),
                None => final(self)@ == old(self)@,
            },
    {
        let i: usize = match commands::find_index_by_identifier(&state.flights, identifier) {
            Some(i) => i,
            None => return ,
        };
        proof {
            lists::lemma_first_where(
                state@.flights,
                |f: FlightModel| f.identifier == identifier@,
            );
        }
        let flight = &state.flights[i];
        let ghost f = flight@;
        assert(state@.flights[i as int] == f);
        let ghost goal = texts_of(f, update@.emits, self.now);
        let ghost before = self@;
        let mut k: usize = 0;
        assert(before.messages + goal.take(0) =~= before.messages);
        while k < update.emits.len()
            invariant
                k <= update.emits@.len(),
                laws::emits_valid(update@),
                self.now == before.now,
                self.now.valid(),
                self.changed == before.changed,
                identifier_models(self.removals@) == before.removals,
                f == flight@,
                goal == texts_of(f, update@.emits, before.now),
                slice::texts(self.messages@) == before.messages + goal.take(k as int),
            decreases update.emits@.len() - k,
        {
            assert(update@.emits[k as int] == update.emits@[k as int]@);
            let message = advance::format_emit(flight, &update.emits[k], self.now);
            let ghost text = message@;
            let ghost told = slice::texts(self.messages@);
            self.messages.push(message);
            assert(slice::texts(self.messages@) =~= told.push(text));
            assert(goal.take(k + 1) =~= goal.take(k as int).push(goal[k as int]));
            assert(told.push(text) =~= before.messages + goal.take(k + 1));
            k = k + 1;
        }
        assert(goal.take(k as int) =~= goal);
        if update.removal.is_some() {
            self.removals.push(identifier.duplicate());
            assert(identifier_models(self.removals@) =~= before.removals.push(f.identifier));
        }
    }

    /// Ends the round: removes the flights that are over.
    pub fn finish(&mut self, state: &mut FlightTrackerState)
        ensures
            final(state)@ == (TrackerModel {
                flights: without_all(old(state)@.flights, old(self)@.removals),
                ..old(state)@
            }),
            final(self)@ == (RoundModel {
                changed: old(self)@.changed || final(state)@.flights.len() != old(
                    state,
                )@.flights.len(),
                ..old(self)@
            }),
    {
        let ghost before = state@;
        let ghost ids = self@.removals;
        let ghost was = self@;
        let mut k: usize = 0;
        while k < self.removals.len()
            invariant
                k <= self.removals@.len(),
                ids == identifier_models(self.removals@),
                self@ == (RoundModel {
                    changed: was.changed || state@.flights.len() != before.flights.len(),
                    ..was
                }),
                state@.flights == without_all(before.flights, ids.take(k as int)),
                state@.flights.len() <= before.flights.len(),
                state@.cache == before.cache,
            decreases self.removals@.len() - k,
        {
            let ghost now_there = state@;
            assert(ids.take(k + 1).drop_last() =~= ids.take(k as int));
            assert(ids.take(k + 1).last() == self.removals@[k as int]@);
            if let Some(i) = commands::find_index_by_identifier(
                &state.flights,
                &self.removals[k],
            ) {
                state.flights.remove(i);
                self.changed = true;
                assert(state@.flights =~= now_there.flights.remove(i as int));
            }
            k = k + 1;
        }
        assert(ids.take(k as int) =~= ids);
    }
}

/// The flights without the one with the identifier.
pub open spec fn without_one(flights: Seq<FlightModel>, id: IdentifierModel) -> Seq<FlightModel> {
    match commands::place_of(flights, id) {
        Some(i) => flights.remove(i),
        None => flights,
    }
}

/// The flights without those with the identifiers.
pub open spec fn without_all(flights: Seq<FlightModel>, ids: Seq<IdentifierModel>) -> Seq<
    FlightModel,
>
    decreases ids.len(),
{
    if ids.len() == 0 {
        flights
    } else {
        without_one(without_all(flights, ids.drop_last()), ids.last())
    }
}


/// A flight leaves the tracker at the end of a round only where its identifier
/// is among those that are over: all others stay, in their order.
pub proof fn law_only_finished_flights_leave(
    flights: Seq<FlightModel>,
    ids: Seq<IdentifierModel>,
    f: FlightModel,
)
    requires
        !ids.contains(f.identifier),
    ensures
        flights.contains(f) ==> without_all(flights, ids).contains(f),
        without_all(flights, ids).contains(f) ==> flights.contains(f),
        without_all(flights, ids).filter(|g: FlightModel| !ids.contains(g.identifier))
            == flights.filter(|g: FlightModel| !ids.contains(g.identifier)),
    decreases ids.len(),
{
    let p = |g: FlightModel| !ids.contains(g.identifier);
    lemma_others_stay(flights, ids, p);
    let left = without_all(flights, ids);
    if flights.contains(f) {
        flights.lemma_filter_contains(p, flights.index_of(f));
        left.lemma_filter_contains_rev(p, f);
    }
    if left.contains(f) {
        left.lemma_filter_contains(p, left.index_of(f));
        flights.lemma_filter_contains_rev(p, f);
    }
}

/// Removing flights by identifier leaves those alone that have another one.
proof fn lemma_others_stay(
    flights: Seq<FlightModel>,
    ids: Seq<IdentifierModel>,
    p: spec_fn(FlightModel) -> bool,
)
    requires
        forall|g: FlightModel| #[trigger] p(g) ==> !ids.contains(g.identifier),
    ensures
        without_all(flights, ids).filter(p) == flights.filter(p),
    decreases ids.len(),
{
    if ids.len() > 0 {
        let rest = ids.drop_last();
        assert forall|g: FlightModel| #[trigger] p(g) implies !rest.contains(g.identifier) by {
            if rest.contains(g.identifier) {
                let k = rest.index_of(g.identifier);
                assert(ids[k] == g.identifier);
            }
        }
        lemma_others_stay(flights, rest, p);
        let before = without_all(flights, rest);
        lists::lemma_first_where(before, |f: FlightModel| f.identifier == ids.last());
        if let Some(i) = commands::place_of(before, ids.last()) {
            assert(ids.contains(before[i].identifier)) by {
                assert(ids[ids.len() - 1] == before[i].identifier);
            }
            assert(!p(before[i]));
            lemma_filter_remove(before, p, i);
        }
    }
}

/// Removing something without the property changes nothing about what has it.
proof fn lemma_filter_remove<T>(s: Seq<T>, p: spec_fn(T) -> bool, i: int)
    requires
        0 <= i < s.len(),
        !p(s[i]),
    ensures
        s.remove(i).filter(p) == s.filter(p),
    decreases s.len(),
{
    reveal(Seq::filter);
    if i == s.len() - 1 {
        assert(s.remove(i) =~= s.drop_last());
    } else {
        lemma_filter_remove(s.drop_last(), p, i);
        assert(s.remove(i).drop_last() =~= s.drop_last().remove(i));
        assert(s.remove(i).last() == s.last());
    }
}

/// A flight is over at the beginning of a round only where it never appeared
/// and its time is up, and it is looked for only where it is due.
pub proof fn law_rounds_start_properly(flights: Seq<FlightModel>, now: Timestamp)
    ensures
        ({
            let s = starting(flights, now);
            &&& forall|id: IdentifierModel| #[trigger]
                s.round.removals.contains(id) ==> exists|i: int|
                    0 <= i < flights.len() && (#[trigger] flights[i]).identifier == id
                        && flights[i].readiness(now) is Expired
            &&& forall|p: PlanModel| #[trigger]
                s.plans.contains(p) ==> exists|i: int|
                    0 <= i < flights.len() && (#[trigger] flights[i]).plan() == p
                        && flights[i].readiness(now) is Due
            &&& s.round.messages.len() == s.round.removals.len()
            &&& s.journal.len() == s.round.removals.len()
            &&& s.round.changed <==> s.round.removals.len() > 0
        }),
    decreases flights.len(),
{
    if flights.len() > 0 {
        let rest = flights.drop_last();
        law_rounds_start_properly(rest, now);
        let r = starting(rest, now);
        let s = starting(flights, now);
        assert(flights.last() == flights[flights.len() - 1]);
        assert forall|id: IdentifierModel| #[trigger] s.round.removals.contains(id) implies exists|
            i: int,
        |
            0 <= i < flights.len() && (#[trigger] flights[i]).identifier == id
                && flights[i].readiness(now) is Expired by {
            let k = choose|k: int| 0 <= k < s.round.removals.len() && s.round.removals[k] == id;
            if k < r.round.removals.len() {
                assert(r.round.removals[k] == id);
                assert(r.round.removals.contains(id));
                let i = choose|i: int|
                    0 <= i < rest.len() && (#[trigger] rest[i]).identifier == id
                        && rest[i].readiness(now) is Expired;
                assert(flights[i] == rest[i]);
            }
        }
        assert forall|p: PlanModel| #[trigger] s.plans.contains(p) implies exists|i: int|
            0 <= i < flights.len() && (#[trigger] flights[i]).plan() == p && flights[i].readiness(
                now,
            ) is Due by {
            let k = choose|k: int| 0 <= k < s.plans.len() && s.plans[k] == p;
            if k < r.plans.len() {
                assert(r.plans[k] == p);
                assert(r.plans.contains(p));
                let i = choose|i: int|
                    0 <= i < rest.len() && (#[trigger] rest[i]).plan() == p && rest[i].readiness(
                        now,
                    ) is Due;
                assert(flights[i] == rest[i]);
            }
        }
    }
}

} // verus!
