//! When to poll each flight.

use vstd::prelude::*;

use super::{
    FlightModel, FlightPhase, TargetConfirmation, TrackedFlight, POLL_FAST, POLL_NORMAL, POLL_SLOW,
};
use crate::time::{Timestamp, NANOS_PER_SEC};

verus! {

/// Poll intervals of pending flights, in seconds.
pub const PENDING_POLL_60_SEC: i64 = 60;

pub const PENDING_POLL_2_MIN: i64 = 120;

pub const PENDING_POLL_5_MIN: i64 = 300;

pub const PENDING_POLL_10_MIN: i64 = 600;

pub const PENDING_POLL_15_MIN: i64 = 900;

pub const PENDING_POLL_30_MIN: i64 = 1800;

/// Distances from the scheduled departure, in seconds.
pub const PENDING_SCHEDULED_WAKE_BEFORE: i64 = 10_800;

pub const PENDING_SCHEDULED_LOCK_IN_BEFORE: i64 = 3_600;

pub const PENDING_SCHEDULED_HUNT_BEFORE: i64 = 1_800;

pub const PENDING_SCHEDULED_NEAR_AFTER: i64 = 2_700;

pub const PENDING_SCHEDULED_MID_AFTER: i64 = 10_800;

pub const PENDING_SCHEDULED_EXPIRE_AFTER: i64 = 43_200;

/// Ages of a track without a schedule, in seconds.
pub const PENDING_UNKNOWN_FAST_AFTER_TRACK: i64 = 600;

pub const PENDING_UNKNOWN_NORMAL_AFTER_TRACK: i64 = 21_600;

pub const PENDING_UNKNOWN_EXPIRE_AFTER: i64 = 86_400;

/// How a flight that has not been seen yet is polled.
#[derive(Clone, Copy, Debug, PartialEq, Eq, Structural)]
pub enum PendingPollSchedule {
    Active {
        /// Seconds between polls.
        interval: i64,
        /// No poll before this instant.
        starts_at: Timestamp,
        /// When the schedule is to be worked out anew.
        refresh_at: Option<Timestamp>,
        expires_at: Timestamp,
    },
    Expired,
}

#[derive(Clone, Copy, Debug, PartialEq, Eq, Structural)]
pub enum PollReadiness {
    Due,
    NotDue(Timestamp),
    Expired,
}

impl FlightModel {
    /// The flight has not been seen yet.
    pub open spec fn pending(self) -> bool {
        self.target_confirmation is Pending || (self.target_confirmation is AircraftVisible
            && self.last_visible_at is None)
    }

    /// The poll interval of a flight that has been seen, in seconds: short
    /// after a change and close to the ground, long in steady flight.
    pub open spec fn live_interval(self) -> i64 {
        if self.polls_since_change < 5 || self.phase is Takeoff || self.phase is Approach
            || self.phase is Landing {
            POLL_FAST
        } else if self.phase is Climb || self.phase is Descent {
            POLL_NORMAL
        } else {
            POLL_SLOW
        }
    }

    /// The schedule of a pending flight whose departure is not known: the
    /// older the track, the longer the interval.
    pub open spec fn unknown_schedule(self, now: Timestamp) -> PendingPollSchedule {
        let expires_at = self.tracked_at.spec_plus(PENDING_UNKNOWN_EXPIRE_AFTER as int);
        let age = now.spec_since(self.tracked_at);
        if now.ticks >= expires_at.ticks {
            PendingPollSchedule::Expired
        } else {
            PendingPollSchedule::Active {
                interval: if age < PENDING_UNKNOWN_FAST_AFTER_TRACK * 1_000_000_000 {
                    PENDING_POLL_2_MIN
                } else if age < PENDING_UNKNOWN_NORMAL_AFTER_TRACK * 1_000_000_000 {
                    PENDING_POLL_10_MIN
                } else {
                    PENDING_POLL_30_MIN
                },
                starts_at: self.tracked_at,
                refresh_at: None,
                expires_at,
            }
        }
    }

    /// The schedule of a pending flight. Around a known departure the interval
    /// shrinks and grows in steps: each step has its interval, its beginning
    /// and its end.
    pub open spec fn pending_schedule(self, now: Timestamp) -> PendingPollSchedule {
        match self.scheduled_departure_at {
            None => self.unknown_schedule(now),
            Some(departure) => {
                let expires_at = departure.spec_plus(PENDING_SCHEDULED_EXPIRE_AFTER as int);
                let until = departure.spec_since(now);
                let since = now.spec_since(departure);
                let wake_at = departure.spec_plus(-PENDING_SCHEDULED_WAKE_BEFORE);
                let lock_in_at = departure.spec_plus(-PENDING_SCHEDULED_LOCK_IN_BEFORE);
                let hunt_at = departure.spec_plus(-PENDING_SCHEDULED_HUNT_BEFORE);
                let near_end = departure.spec_plus(PENDING_SCHEDULED_NEAR_AFTER as int);
                let mid_end = departure.spec_plus(PENDING_SCHEDULED_MID_AFTER as int);
                if self.tracked_at.ticks >= expires_at.ticks {
                    self.unknown_schedule(now)
                } else if now.ticks >= expires_at.ticks {
                    PendingPollSchedule::Expired
                } else if until > PENDING_SCHEDULED_WAKE_BEFORE * 1_000_000_000 {
                    step(PENDING_POLL_15_MIN, wake_at, Some(wake_at), expires_at)
                } else if until > PENDING_SCHEDULED_LOCK_IN_BEFORE * 1_000_000_000 {
                    step(PENDING_POLL_15_MIN, wake_at, Some(lock_in_at), expires_at)
                } else if until > PENDING_SCHEDULED_HUNT_BEFORE * 1_000_000_000 {
                    step(PENDING_POLL_5_MIN, lock_in_at, Some(hunt_at), expires_at)
                } else if now.ticks <= departure.ticks {
                    step(PENDING_POLL_60_SEC, hunt_at, Some(departure), expires_at)
                } else if since <= PENDING_SCHEDULED_NEAR_AFTER * 1_000_000_000 {
                    step(PENDING_POLL_2_MIN, departure, Some(near_end), expires_at)
                } else if since <= PENDING_SCHEDULED_MID_AFTER * 1_000_000_000 {
                    step(PENDING_POLL_5_MIN, near_end, Some(mid_end), expires_at)
                } else {
                    step(PENDING_POLL_15_MIN, mid_end, None, expires_at)
                }
            },
        }
    }

    /// When the flight is to be polled next, given its pending schedule.
    pub open spec fn next_due(self, now: Timestamp) -> Timestamp {
        if self.pending() {
            match self.pending_schedule(now) {
                PendingPollSchedule::Expired => now,
                PendingPollSchedule::Active { interval, starts_at, refresh_at, expires_at } => {
                    earliest(
                        before_refresh(
                            latest(after_last_poll(self.last_adsb_poll_at, interval, now), starts_at),
                            refresh_at,
                            now,
                        ),
                        expires_at,
                    )
                },
            }
        } else {
            after_last_poll(self.last_adsb_poll_at, self.live_interval(), now)
        }
    }

    /// Whether the flight is to be polled now, later or never again.
    pub open spec fn readiness(self, now: Timestamp) -> PollReadiness {
        if self.pending() && self.pending_schedule(now) is Expired {
            PollReadiness::Expired
        } else if self.next_due(now).ticks <= now.ticks {
            PollReadiness::Due
        } else {
            PollReadiness::NotDue(self.next_due(now))
        }
    }

    /// When the tracker has to look at the flight again.
    pub open spec fn wake_at(self, now: Timestamp) -> Timestamp {
        match self.readiness(now) {
            PollReadiness::NotDue(t) => t,
            _ => now,
        }
    }
}

/// One step of a schedule.
pub open spec fn step(
    interval: i64,
    starts_at: Timestamp,
    refresh_at: Option<Timestamp>,
    expires_at: Timestamp,
) -> PendingPollSchedule {
    PendingPollSchedule::Active { interval, starts_at, refresh_at, expires_at }
}

pub open spec fn latest(a: Timestamp, b: Timestamp) -> Timestamp {
    if a.ticks >= b.ticks {
        a
    } else {
        b
    }
}

pub open spec fn earliest(a: Timestamp, b: Timestamp) -> Timestamp {
    if a.ticks <= b.ticks {
        a
    } else {
        b
    }
}

/// `interval` seconds after the last poll, or at once where there was none.
pub open spec fn after_last_poll(last: Option<Timestamp>, interval: i64, now: Timestamp) -> Timestamp {
    match last {
        Some(t) => t.spec_plus(interval as int),
        None => now,
    }
}

/// `due`, but not after a refresh that is still to come.
pub open spec fn before_refresh(
    due: Timestamp,
    refresh_at: Option<Timestamp>,
    now: Timestamp,
) -> Timestamp {
    match refresh_at {
        Some(r) => if now.ticks < r.ticks < due.ticks {
            r
        } else {
            due
        },
        None => due,
    }
}

/// Whether the flight has not been seen yet.
pub fn is_pending_adsb(flight: &TrackedFlight) -> (b: bool)
    ensures
        b == flight@.pending(),
{
    flight.target_confirmation == TargetConfirmation::Pending || (flight.target_confirmation
        == TargetConfirmation::AircraftVisible && flight.last_visible_at.is_none())
}

/// The poll interval of a flight that has been seen, in seconds.
pub fn live_poll_interval(flight: &TrackedFlight) -> (r: i64)
    ensures
        r == flight@.live_interval(),
{
    if flight.polls_since_change < 5 {
        return POLL_FAST;
    }
    match flight.phase {
        FlightPhase::Takeoff => POLL_FAST,
        FlightPhase::Approach => POLL_FAST,
        FlightPhase::Landing => POLL_FAST,
        FlightPhase::Climb => POLL_NORMAL,
        FlightPhase::Descent => POLL_NORMAL,
        _ => POLL_SLOW,
    }
}

/// The schedule of a pending flight whose departure is not known.
pub fn pending_unknown_poll_schedule(flight: &TrackedFlight, now: Timestamp) -> (r:
    PendingPollSchedule)
    requires
        flight@.valid(),
        now.valid(),
    ensures
        r == flight@.unknown_schedule(now),
{
    let expires_at = flight.tracked_at.plus_secs(PENDING_UNKNOWN_EXPIRE_AFTER);
    if now.ticks >= expires_at.ticks {
        return PendingPollSchedule::Expired;
    }
    let age: i128 = now.nanos_since(flight.tracked_at);
    let interval: i64 = if age < PENDING_UNKNOWN_FAST_AFTER_TRACK as i128 * NANOS_PER_SEC {
        PENDING_POLL_2_MIN
    } else if age < PENDING_UNKNOWN_NORMAL_AFTER_TRACK as i128 * NANOS_PER_SEC {
        PENDING_POLL_10_MIN
    } else {
        PENDING_POLL_30_MIN
    };
    PendingPollSchedule::Active {
        interval,
        starts_at: flight.tracked_at,
        refresh_at: None,
        expires_at,
    }
}

/// The schedule of a pending flight.
pub fn pending_poll_schedule(flight: &TrackedFlight, now: Timestamp) -> (r: PendingPollSchedule)
    requires
        flight@.valid(),
        now.valid(),
    ensures
        r == flight@.pending_schedule(now),
{
    let departure = match flight.scheduled_departure_at {
        Some(t) => t,
        None => return pending_unknown_poll_schedule(flight, now),
    };
    let expires_at = departure.plus_secs(PENDING_SCHEDULED_EXPIRE_AFTER);
    if flight.tracked_at.ticks >= expires_at.ticks {
        return pending_unknown_poll_schedule(flight, now);
    }
    if now.ticks >= expires_at.ticks {
        return PendingPollSchedule::Expired;
    }
    let until: i128 = departure.nanos_since(now);
    let since: i128 = now.nanos_since(departure);
    let wake_at = departure.plus_secs(-PENDING_SCHEDULED_WAKE_BEFORE);
    let lock_in_at = departure.plus_secs(-PENDING_SCHEDULED_LOCK_IN_BEFORE);
    let hunt_at = departure.plus_secs(-PENDING_SCHEDULED_HUNT_BEFORE);
    let near_end = departure.plus_secs(PENDING_SCHEDULED_NEAR_AFTER);
    let mid_end = departure.plus_secs(PENDING_SCHEDULED_MID_AFTER);
    let (interval, starts_at, refresh_at): (i64, Timestamp, Option<Timestamp>) = if until
        > PENDING_SCHEDULED_WAKE_BEFORE as i128 * NANOS_PER_SEC {
        (PENDING_POLL_15_MIN, wake_at, Some(wake_at))
    } else if until > PENDING_SCHEDULED_LOCK_IN_BEFORE as i128 * NANOS_PER_SEC {
        (PENDING_POLL_15_MIN, wake_at, Some(lock_in_at))
    } else if until > PENDING_SCHEDULED_HUNT_BEFORE as i128 * NANOS_PER_SEC {
        (PENDING_POLL_5_MIN, lock_in_at, Some(hunt_at))
    } else if now.ticks <= departure.ticks {
        (PENDING_POLL_60_SEC, hunt_at, Some(departure))
    } else if since <= PENDING_SCHEDULED_NEAR_AFTER as i128 * NANOS_PER_SEC {
        (PENDING_POLL_2_MIN, departure, Some(near_end))
    } else if since <= PENDING_SCHEDULED_MID_AFTER as i128 * NANOS_PER_SEC {
        (PENDING_POLL_5_MIN, near_end, Some(mid_end))
    } else {
        (PENDING_POLL_15_MIN, mid_end, None)
    };
    PendingPollSchedule::Active { interval, starts_at, refresh_at, expires_at }
}

/// `interval` seconds after the last poll, or at once where there was none.
pub fn next_due_after_last_poll(last_adsb_poll_at: Option<Timestamp>, interval: i64, now: Timestamp)
    -> (r: Timestamp)
    requires
        last_adsb_poll_at is Some ==> last_adsb_poll_at->0.valid(),
        0 <= interval <= 1800,
    ensures
        r == after_last_poll(last_adsb_poll_at, interval, now),
{
    match last_adsb_poll_at {
        Some(t) => t.plus_secs(interval),
        None => now,
    }
}

/// Whether the flight is to be polled now, later or never again.
pub fn poll_readiness(flight: &TrackedFlight, now: Timestamp) -> (r: PollReadiness)
    requires
        flight@.valid(),
        now.valid(),
    ensures
        r == flight@.readiness(now),
{
    let next_due = if is_pending_adsb(flight) {
        match pending_poll_schedule(flight, now) {
            PendingPollSchedule::Expired => return PollReadiness::Expired,
            PendingPollSchedule::Active { interval, starts_at, refresh_at, expires_at } => {
                let mut due_at = next_due_after_last_poll(flight.last_adsb_poll_at, interval, now);
                if due_at.ticks < starts_at.ticks {
                    due_at = starts_at;
                }
                if let Some(refresh_at) = refresh_at {
                    if now.ticks < refresh_at.ticks && refresh_at.ticks < due_at.ticks {
                        due_at = refresh_at;
                    }
                }
                if due_at.ticks <= expires_at.ticks {
                    due_at
                } else {
                    expires_at
                }
            },
        }
    } else {
        next_due_after_last_poll(flight.last_adsb_poll_at, live_poll_interval(flight), now)
    };
    if next_due.ticks <= now.ticks {
        PollReadiness::Due
    } else {
        PollReadiness::NotDue(next_due)
    }
}

/// When the tracker has to look at the flight again.
fn next_look_at(flight: &TrackedFlight, now: Timestamp) -> (r: Timestamp)
    requires
        flight@.valid(),
        now.valid(),
    ensures
        r == flight@.wake_at(now),
{
    match poll_readiness(flight, now) {
        PollReadiness::NotDue(t) => t,
        _ => now,
    }
}

/// When the tracker has to look at any of the flights again: the earliest
/// instant at which one of them needs it.
#[verifier::rlimit(50)]
pub fn next_poll_at(flights: &[TrackedFlight], now: Timestamp) -> (r: Option<Timestamp>)
    requires
        forall|i: int| 0 <= i < flights@.len() ==> (#[trigger] flights@[i])@.valid(),
        now.valid(),
    ensures
        r is None <==> flights@.len() == 0,
        r is Some ==> exists|i: int|
            0 <= i < flights@.len() && r->0 == (#[trigger] flights@[i])@.wake_at(now),
        r is Some ==> forall|i: int|
            0 <= i < flights@.len() ==> r->0.ticks <= (#[trigger] flights@[i])@.wake_at(now).ticks,
{
    let mut best: Option<Timestamp> = None;
    let mut i: usize = 0;
    while i < flights.len()
        invariant
            i <= flights@.len(),
            forall|i: int| 0 <= i < flights@.len() ==> (#[trigger] flights@[i])@.valid(),
            now.valid(),
            best is None <==> i == 0,
            best is Some ==> exists|j: int|
                0 <= j < i && best->0 == (#[trigger] flights@[j])@.wake_at(now),
            best is Some ==> forall|j: int|
                0 <= j < i ==> best->0.ticks <= (#[trigger] flights@[j])@.wake_at(now).ticks,
        decreases flights@.len() - i,
    {
        let at = next_look_at(&flights[i], now);
        match best {
            Some(t) => {
                if at.ticks < t.ticks {
                    best = Some(at);
                }
            },
            None => {
                best = Some(at);
            },
        }
        i = i + 1;
    }
    best
}

/// A poll that is put off is put off to a later instant.
pub proof fn law_not_due_is_later(f: FlightModel, now: Timestamp)
    ensures
        f.readiness(now) is NotDue ==> f.readiness(now)->0.ticks > now.ticks,
{
}

/// A pending flight is looked at no later than at its expiry and at the end of
/// the current step of its schedule.
pub proof fn law_pending_wakes_in_time(f: FlightModel, now: Timestamp)
    requires
        f.pending(),
        f.pending_schedule(now) is Active,
    ensures
        f.wake_at(now).ticks <= f.pending_schedule(now)->expires_at.ticks,
        f.pending_schedule(now)->refresh_at is Some && f.pending_schedule(now)->refresh_at->0.ticks
            > now.ticks ==> f.wake_at(now).ticks <= f.pending_schedule(now)->refresh_at->0.ticks,
{
}

/// Until three hours before its scheduled departure a pending flight is not
/// polled at all: the next poll is exactly then. Around a leap second the span
/// to the departure and the instant before it may differ, and both have to be
/// so far off.
pub proof fn law_chills_until_three_hours_before_departure(f: FlightModel, now: Timestamp)
    requires
        f.valid(),
        now.valid(),
        f.pending(),
        f.scheduled_departure_at is Some,
        f.scheduled_departure_at->0.spec_since(now) > PENDING_SCHEDULED_WAKE_BEFORE * 1_000_000_000,
        now.ticks < f.scheduled_departure_at->0.spec_plus(-PENDING_SCHEDULED_WAKE_BEFORE).ticks,
        f.tracked_at.ticks < f.scheduled_departure_at->0.spec_plus(
            PENDING_SCHEDULED_EXPIRE_AFTER as int,
        ).ticks,
    ensures
        f.readiness(now) == PollReadiness::NotDue(
            f.scheduled_departure_at->0.spec_plus(-PENDING_SCHEDULED_WAKE_BEFORE),
        ),
{
}

/// A flight that has been seen never expires.
pub proof fn law_live_flights_never_expire(f: FlightModel, now: Timestamp)
    requires
        !f.pending(),
    ensures
        !(f.readiness(now) is Expired),
{
}

} // verus!
