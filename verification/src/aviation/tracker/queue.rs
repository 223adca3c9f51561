//! The commands that reach the tracker, and what it waits for between them.

use vstd::prelude::*;

use super::advance::{OutcomeModel, PollOutcome};
use super::commands;
use super::commands::{remove_flight_at, Removed};
use super::debug_journal;
use super::schedule::next_poll_at;
use super::state::{build_flight_view, TrackedFlightView};
use super::{FlightIdentifier, FlightTrackerState, TrackerModel};
use crate::lists;
use crate::time::Timestamp;

verus! {

/// A command to the tracker. `M` is what a reply in the chat answers, `S` and
/// `D` take the replies to the dashboard.
#[derive(Debug)]
pub enum TrackerCommand<M, S, D> {
    Track { identifier: FlightIdentifier, requested_by: String, reply_to: M },
    Untrack { identifier: String, requested_by: String, is_mod: bool, reply_to: M },
    Status { identifier: Option<String>, reply_to: M },
    Info { identifier: FlightIdentifier, reply_to: M },
    Snapshot { reply: S },
    DeleteFromWeb { identifier: String, reply: D },
}

impl<M, S, D> TrackerCommand<M, S, D> {
    /// Whether a command is answered even while flights are being polled.
    pub open spec fn urgent(self) -> bool {
        self is Snapshot || self is DeleteFromWeb
    }
}

/// What comes of a command while flights are being polled.
#[derive(Debug)]
pub enum Answered<M, S, D> {
    /// The flights as the dashboard shows them.
    Views { views: Vec<TrackedFlightView>, reply: S },
    /// The flight that was removed, where one was meant.
    Removal { removed: Option<Removed>, reply: D },
    /// The command has to wait.
    Deferred(TrackerCommand<M, S, D>),
}

/// Answers a command that cannot wait, and hands back any other.
pub fn process_latency_sensitive_command<M, S, D>(
    command: TrackerCommand<M, S, D>,
    state: &mut FlightTrackerState,
    now: Timestamp,
) -> (r: Answered<M, S, D>)
    requires
        old(state)@.valid(),
        now.valid(),
    ensures
        final(state)@.valid(),
        !command.urgent() ==> r == Answered::<M, S, D>::Deferred(command) && final(state)@ == old(
            state,
        )@,
        command matches TrackerCommand::Snapshot { reply } ==> {
            &&& final(state)@ == old(state)@
            &&& match r {
                Answered::Views { views, reply: to } => to == reply && views@.len() == old(
                    state,
                )@.flights.len() && forall|i: int|
                    0 <= i < views@.len() ==> (#[trigger] views@[i])@ == old(
                        state,
                    )@.flights[i].dashboard_view(now),
                _ => false,
            }
        },
        command matches TrackerCommand::DeleteFromWeb { identifier, reply } ==> match r {
            Answered::Removal { removed, reply: to } => to == reply && removal_done(
                old(state)@,
                final(state)@,
                identifier@,
                removed,
                now,
            ),
            _ => false,
        },
{
    match command {
        TrackerCommand::Snapshot { reply } => Answered::Views {
            views: build_flight_view(state, now),
            reply,
        },
        TrackerCommand::DeleteFromWeb { identifier, reply } => {
            let removed = remove_flight_at(state, identifier.as_str(), "web", now);
            Answered::Removal { removed, reply }
        },
        other => Answered::Deferred(other),
    }
}

/// Whether the flight that a query means was removed from the dashboard, and
/// nothing else.
pub open spec fn removal_done(
    before: TrackerModel,
    after: TrackerModel,
    query: Seq<char>,
    removed: Option<Removed>,
    now: Timestamp,
) -> bool {
    match commands::place_meant(before.flights, query) {
        Some(i) => {
            let f = before.flights[i];
            &&& removed is Some
            &&& removed->0.label@ == f.label()
            &&& removed->0.journal@ == debug_journal::removal_event(
                f,
                "web"@,
                f.last_seen_age(now),
            )
            &&& after == before.without(i)
        },
        None => removed is None && after == before,
    }
}

/// The outcomes that found an aircraft.
pub open spec fn is_hit() -> spec_fn(OutcomeModel) -> bool {
    |o: OutcomeModel| o is Hit
}

/// What several polls for one aircraft came to: the first hit, or else the last
/// outcome. Where there was no poll it is a miss.
pub open spec fn settled(outcomes: Seq<OutcomeModel>) -> OutcomeModel {
    match lists::first_where(outcomes, is_hit()) {
        Some(i) => outcomes[i],
        None => if outcomes.len() > 0 {
            outcomes.last()
        } else {
            OutcomeModel::Miss
        },
    }
}

/// What a list of outcomes holds.
pub open spec fn outcomes(v: Seq<PollOutcome>) -> Seq<OutcomeModel> {
    v.map_values(|o: PollOutcome| o.model())
}

/// What several polls for one aircraft came to.
pub fn settle_polls(polls: Vec<PollOutcome>) -> (r: PollOutcome)
    ensures
        r.model() == settled(outcomes(polls@)),
{
    let ghost all = outcomes(polls@);
    let mut polls = polls;
    if polls.len() == 0 {
        proof {
            lists::lemma_first_none(all, is_hit());
        }
        return PollOutcome::Miss;
    }
    let mut i: usize = 0;
    while i < polls.len() && !polls[i].found()
        invariant
            i <= polls@.len(),
            all == outcomes(polls@),
            forall|j: int| 0 <= j < i ==> !is_hit()(#[trigger] all[j]),
        decreases polls@.len() - i,
    {
        assert(all[i as int] == polls@[i as int].model());
        i = i + 1;
    }
    let n: usize = polls.len();
    if i < n {
        proof {
            assert(all[i as int] == polls@[i as int].model());
            lists::lemma_first_at(all, is_hit(), i as int);
        }
        polls.remove(i)
    } else {
        proof {
            lists::lemma_first_none(all, is_hit());
            assert(all.last() == polls@[n - 1].model());
        }
        polls.remove(n - 1)
    }
}

impl PollOutcome {
    /// Whether an aircraft was found.
    pub fn found(&self) -> (b: bool)
        ensures
            b == (self.model() is Hit),
    {
        match self {
            PollOutcome::Hit(_) => true,
            _ => false,
        }
    }
}

/// What the tracker waits for.
#[derive(Clone, Copy, Debug, PartialEq, Eq, Structural)]
pub enum TrackerWait {
    /// For the next command, as there is nothing to poll.
    Command,
    /// For the next command or the instant at which a flight is due.
    Until(Timestamp),
}

/// What the tracker waits for once it has polled what was due.
pub fn tracker_wait(state: &FlightTrackerState, now: Timestamp) -> (r: TrackerWait)
    requires
        state@.valid(),
        now.valid(),
    ensures
        r is Command <==> state@.flights.len() == 0,
        r matches TrackerWait::Until(t) ==> {
            &&& exists|i: int|
                0 <= i < state@.flights.len() && t == (#[trigger] state@.flights[i]).wake_at(now)
            &&& forall|i: int|
                0 <= i < state@.flights.len() ==> t.ticks <= (
                #[trigger] state@.flights[i]).wake_at(now).ticks
        },
{
    assert forall|i: int| 0 <= i < state.flights@.len() implies (
    #[trigger] state.flights@[i])@.valid() by {
        assert(state@.flights[i] == state.flights@[i]@);
    }
    match next_poll_at(state.flights.as_slice(), now) {
        Some(t) => {
            proof {
                let k = choose|k: int|
                    0 <= k < state.flights@.len() && t == (#[trigger] state.flights@[k])@.wake_at(
                        now,
                    );
                assert(state@.flights[k] == state.flights@[k]@);
                assert forall|i: int| 0 <= i < state@.flights.len() implies t.ticks <= (
                #[trigger] state@.flights[i]).wake_at(now).ticks by {
                    assert(state@.flights[i] == state.flights@[i]@);
                }
            }
            TrackerWait::Until(t)
        },
        None => TrackerWait::Command,
    }
}

} // verus!
