//! What holds of every request to track a flight.

use vstd::prelude::*;

use super::advance::OutcomeModel;
use super::cache::{LookupModel, LookupStepModel};
use super::commands;
use super::debug_journal::EventModel;
use super::metadata;
use super::request;
use super::request::{
    NextModel, OpeningModel, QueryModel, RequestModel, RouteOutcomeModel, StepModel,
};
use super::{
    FlightModel, TargetConfirmation, TrackerModel, MAX_FLIGHTS_PER_USER, MAX_TRACKED_FLIGHTS,
};
use crate::aviation::airports::PositionModel;
use crate::aviation::types::{AircraftModel, MetadataModel};
use crate::time::Timestamp;

verus! {

impl TrackerModel {
    /// One more flight of the user can be tracked.
    pub open spec fn has_room_for(self, r: RequestModel) -> bool {
        self.flights.len() < MAX_TRACKED_FLIGHTS && request::flights_of(
            self.flights,
            r.requested_by,
        ) < MAX_FLIGHTS_PER_USER
    }

    /// No more flights are tracked than may be, in all and for each user.
    pub open spec fn within_limits(self) -> bool {
        self.flights.len() <= MAX_TRACKED_FLIGHTS && forall|user: Seq<char>|
            #[trigger] request::flights_of(self.flights, user) <= MAX_FLIGHTS_PER_USER
    }

    /// None of the tracked flights is already what the flight stands for.
    pub open spec fn is_new(self, f: FlightModel) -> bool {
        !commands::has_duplicate(self.flights, f.identifier, f.callsign, f.hex)
    }
}

impl OpeningModel {
    /// The flight is the one that was asked for.
    pub open spec fn as_requested(self) -> bool {
        self.flight.identifier == self.request.identifier && self.flight.tracked_by
            == self.request.requested_by
    }
}

impl NextModel {
    /// The stage is about the request, there is room for it, and a flight that
    /// has got past the comparison with the others is still new.
    pub open spec fn sound(self, t: TrackerModel, r: RequestModel) -> bool {
        t.has_room_for(r) && match self {
            NextModel::Resolve { request } => request == r,
            NextModel::AskProvider { request, .. } => request == r,
            NextModel::Poll { opening, .. } => opening.request == r && opening.as_requested()
                && t.is_new(opening.flight),
            NextModel::AskAgain { opening, .. } => opening.request == r && opening.as_requested(),
            NextModel::FetchRoute { opening, .. } => opening.request == r && opening.as_requested()
                && t.is_new(opening.flight),
            NextModel::Reply { .. } => true,
        }
    }

    /// An upper bound on the stages that are still to come.
    pub open spec fn rank(self) -> nat {
        match self {
            NextModel::Resolve { .. } => 6,
            NextModel::AskProvider { .. } => 5,
            NextModel::Poll { query, .. } => if query is Callsigns {
                4
            } else {
                3
            },
            NextModel::AskAgain { .. } => 2,
            NextModel::FetchRoute { .. } => 1,
            NextModel::Reply { .. } => 0,
        }
    }
}

/// What a stage may do. Either the request goes on and no flight is added, or
/// it is answered. A flight is added only with the answer, it is the one that
/// was asked for, and it is new. The limits are kept, and fewer than `bound`
/// stages are still to come.
pub open spec fn proper(
    t: TrackerModel,
    r: RequestModel,
    bound: nat,
    result: (TrackerModel, StepModel),
) -> bool {
    let (after, step) = result;
    &&& step.next.rank() < bound
    &&& t.within_limits() ==> after.within_limits()
    &&& {
        ||| after.flights == t.flights && (step.next is Reply || step.next.sound(after, r))
        ||| step.next is Reply && after.flights.len() == t.flights.len() + 1 && after.flights
            == t.flights.push(after.flights.last()) && after.flights.last().identifier
            == r.identifier && after.flights.last().tracked_by == r.requested_by && t.is_new(
            after.flights.last(),
        )
    }
}

proof fn lemma_one_more(flights: Seq<FlightModel>, f: FlightModel, user: Seq<char>)
    ensures
        request::flights_of(flights.push(f), user) == request::flights_of(flights, user) + if f.tracked_by
            == user {
            1nat
        } else {
            0nat
        },
{
    assert(flights.push(f).drop_last() =~= flights);
}

proof fn lemma_complete(t: TrackerModel, o: OpeningModel, journal: Seq<EventModel>)
    requires
        t.has_room_for(o.request),
        o.as_requested(),
        t.is_new(o.flight),
    ensures
        proper(t, o.request, 1, t.on_complete(o, journal)),
{
    reveal(TrackerModel::on_complete);
    let after = t.on_complete(o, journal).0;
    assert(after.flights.last() == o.flight);
    if t.within_limits() {
        assert forall|user: Seq<char>| #[trigger]
            request::flights_of(after.flights, user) <= MAX_FLIGHTS_PER_USER by {
            lemma_one_more(t.flights, o.flight, user);
            assert(request::flights_of(t.flights, user) <= MAX_FLIGHTS_PER_USER);
        }
    }
}

proof fn lemma_identified(t: TrackerModel, o: OpeningModel, quiet: bool, journal: Seq<EventModel>)
    requires
        t.has_room_for(o.request),
        o.as_requested(),
        t.is_new(o.flight),
    ensures
        proper(t, o.request, 2, t.on_identified(o, quiet, journal)),
{
    reveal(TrackerModel::on_identified);
    lemma_complete(t, o, journal);
}

proof fn lemma_enriched(t: TrackerModel, o: OpeningModel, journal: Seq<EventModel>)
    requires
        t.has_room_for(o.request),
        o.as_requested(),
    ensures
        proper(t, o.request, 2, t.on_enriched(o, journal)),
{
    reveal(TrackerModel::on_enriched);
    if t.is_new(o.flight) {
        lemma_identified(t, o, false, journal);
    }
}

proof fn lemma_metadata_keeps_request(
    f: FlightModel,
    m: Option<MetadataModel>,
    airports: Seq<PositionModel>,
)
    ensures
        request::enriched(f, m, airports).identifier == f.identifier,
        request::enriched(f, m, airports).tracked_by == f.tracked_by,
{
    reveal(request::enriched);
}

proof fn lemma_second_lookup(
    t: TrackerModel,
    o: OpeningModel,
    m: Option<MetadataModel>,
    cache_hit: bool,
    airports: Seq<PositionModel>,
    journal: Seq<EventModel>,
)
    requires
        t.has_room_for(o.request),
        o.as_requested(),
    ensures
        proper(t, o.request, 2, t.on_second_lookup(o, m, cache_hit, airports, journal)),
{
    lemma_metadata_keeps_request(o.flight, m, airports);
    let after = OpeningModel { flight: request::enriched(o.flight, m, airports), ..o };
    assert(after.as_requested());
    let entry = super::debug_journal::enrichment_event(
        o.request.identifier,
        o.flight.callsign,
        request::lookup_http(m),
        m,
        cache_hit,
    );
    lemma_enriched(t, after, journal.push(entry));
}

proof fn lemma_searched(
    t: TrackerModel,
    o: OpeningModel,
    airports: Seq<PositionModel>,
    journal: Seq<EventModel>,
)
    requires
        t.has_room_for(o.request),
        o.as_requested(),
    ensures
        proper(t, o.request, 3, t.on_searched(o, airports, journal)),
{
    reveal(TrackerModel::on_searched);
    let marked = OpeningModel {
        flight: FlightModel { aviationstack_checked: true, ..o.flight },
        ..o
    };
    let pruned = t.pruned(o.now);
    match t.lookup_step(o.request.identifier, o.flight.callsign, true, o.now) {
        LookupStepModel::Done(lookup) => {
            lemma_second_lookup(
                pruned,
                marked,
                lookup.metadata,
                lookup.checked,
                airports,
                journal,
            );
        },
        LookupStepModel::AskProvider { aliases, cache_changed } => {},
    }
    lemma_enriched(t, o, journal);
}

proof fn lemma_lookup(
    t: TrackerModel,
    r: RequestModel,
    callsign: Option<Seq<char>>,
    lookup: LookupModel,
    cache_hit: bool,
    airports: Seq<PositionModel>,
    now: Timestamp,
)
    requires
        t.has_room_for(r),
    ensures
        proper(t, r, 5, t.on_lookup(r, callsign, lookup, cache_hit, airports, now)),
{
    let o = OpeningModel::of(r, callsign, lookup, airports, now);
    lemma_metadata_keeps_request(
        metadata::seeded(FlightModel::requested(r, callsign, lookup.checked, now)),
        lookup.metadata,
        airports,
    );
    assert(o.as_requested());
    let entry = super::debug_journal::enrichment_event(
        r.identifier,
        callsign,
        request::lookup_http(lookup.metadata),
        lookup.metadata,
        cache_hit,
    );
    lemma_searched(t, o, airports, seq![entry]);
    lemma_searched(t, o, airports, Seq::empty());
    reveal(TrackerModel::on_lookup);
}

/// A request that comes in is refused without a change, or goes on with room
/// for it.
pub proof fn law_requests_are_proper(
    t: TrackerModel,
    r: RequestModel,
    airports: Seq<PositionModel>,
    now: Timestamp,
)
    ensures
        proper(t, r, 7, t.on_request(r, airports, now)),
        t.refusal(r) is Some ==> t.on_request(r, airports, now) == t.refused(t.refusal(r)->0),
{
    if t.refusal(r) is None {
        lemma_lookup(
            t,
            r,
            None,
            LookupModel { checked: false, metadata: None, cache_changed: false, failed: false },
            false,
            airports,
            now,
        );
    }
}

/// The stage after the callsign has been resolved does only what a stage may
/// do.
pub proof fn law_resolutions_are_proper(
    t: TrackerModel,
    r: RequestModel,
    callsign: Seq<char>,
    airports: Seq<PositionModel>,
    now: Timestamp,
)
    requires
        (NextModel::Resolve { request: r }).sound(t, r),
    ensures
        proper(t, r, 6, t.on_resolved(r, callsign, airports, now)),
{
    match t.lookup_step(r.identifier, Some(callsign), r.provider_enabled, now) {
        LookupStepModel::Done(lookup) => {
            lemma_lookup(
                t.pruned(now),
                r,
                Some(callsign),
                lookup,
                lookup.checked,
                airports,
                now,
            );
        },
        LookupStepModel::AskProvider { aliases, cache_changed } => {},
    }
}

/// The stage after the provider has answered does only what a stage may do.
pub proof fn law_answers_are_proper(
    t: TrackerModel,
    r: RequestModel,
    callsign: Option<Seq<char>>,
    aliases: Seq<Seq<char>>,
    answer: Result<Option<MetadataModel>, ()>,
    lookup: LookupModel,
    airports: Seq<PositionModel>,
    now: Timestamp,
)
    requires
        t.has_room_for(r),
    ensures
        proper(
            t,
            r,
            5,
            t.told(aliases, answer, now).on_lookup(r, callsign, lookup, false, airports, now),
        ),
{
    lemma_lookup(t.told(aliases, answer, now), r, callsign, lookup, false, airports, now);
}

/// The stage after the aircraft has been looked for does only what a stage may
/// do.
pub proof fn law_polls_are_proper(
    t: TrackerModel,
    o: OpeningModel,
    query: QueryModel,
    outcome: OutcomeModel,
    airports: Seq<PositionModel>,
)
    requires
        (NextModel::Poll { opening: o, query }).sound(t, o.request),
    ensures
        proper(
            t,
            o.request,
            (NextModel::Poll { opening: o, query }).rank(),
            t.on_polled(o, query, outcome, airports),
        ),
{
    reveal(TrackerModel::on_polled);
    let polled = OpeningModel {
        flight: FlightModel { last_adsb_poll_at: Some(o.now), ..o.flight },
        ..o
    };
    lemma_searched(t, polled, airports, Seq::empty());
    if outcome is Hit {
        let ac = outcome->Hit_0;
        let used_hex = query is Hex && o.flight.hex is Some;
        match polled.flight.confirmation_by(ac, used_hex, o.now) {
            Some(confirmation) => {
                lemma_first_seen_keeps_request(polled.flight, ac, confirmation, o.now);
                let seen = OpeningModel {
                    flight: polled.flight.first_seen(ac, confirmation, o.now),
                    ..o
                };
                lemma_searched(t, seen, airports, Seq::empty());
            },
            None => {
                let waiting = OpeningModel {
                    flight: FlightModel {
                        polls_since_change: super::advance::one_more(
                            polled.flight.polls_since_change,
                        ),
                        ..polled.flight
                    },
                    ..o
                };
                lemma_identified(t, waiting, true, Seq::empty());
            },
        }
    }
}

proof fn lemma_first_seen_keeps_request(
    f: FlightModel,
    ac: AircraftModel,
    confirmation: TargetConfirmation,
    now: Timestamp,
)
    ensures
        f.first_seen(ac, confirmation, now).identifier == f.identifier,
        f.first_seen(ac, confirmation, now).tracked_by == f.tracked_by,
{
    reveal(FlightModel::first_seen);
    reveal(FlightModel::observed);
}

/// The stage after the provider has answered about a callsign that came up
/// with the aircraft does only what a stage may do.
pub proof fn law_second_answers_are_proper(
    t: TrackerModel,
    o: OpeningModel,
    aliases: Seq<Seq<char>>,
    cache_changed: bool,
    answer: Result<Option<MetadataModel>, ()>,
    m: Option<MetadataModel>,
    airports: Seq<PositionModel>,
)
    requires
        (NextModel::AskAgain { opening: o, aliases, cache_changed }).sound(t, o.request),
    ensures
        proper(
            t,
            o.request,
            2,
            t.told(aliases, answer, o.now).on_second_lookup(o, m, false, airports, Seq::empty()),
        ),
{
    lemma_second_lookup(t.told(aliases, answer, o.now), o, m, false, airports, Seq::empty());
}

/// The stage after the route has been looked up does only what a stage may do,
/// and the flight is tracked from then on.
pub proof fn law_routes_are_proper(
    t: TrackerModel,
    o: OpeningModel,
    callsign: Seq<char>,
    quiet: bool,
    outcome: RouteOutcomeModel,
    airports: Seq<PositionModel>,
)
    requires
        (NextModel::FetchRoute { opening: o, flies_as: callsign, quiet }).sound(t, o.request),
    ensures
        proper(t, o.request, 1, t.on_route(o, callsign, quiet, outcome, airports)),
        t.on_route(o, callsign, quiet, outcome, airports).0.flights.len() == t.flights.len() + 1,
{
    let f = request::with_route(o.flight, outcome, airports);
    let after = OpeningModel { flight: f, ..o };
    assert(after.as_requested());
    assert(t.is_new(f));
    lemma_complete(
        t,
        after,
        if quiet && !(outcome is Found) {
            Seq::empty()
        } else {
            seq![request::route_event(f, callsign, outcome)]
        },
    );
    reveal(TrackerModel::on_complete);
}

} // verus!
