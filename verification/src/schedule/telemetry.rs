//! When messages were sent last, and how often today.

use vstd::prelude::*;

use crate::berlin;
use crate::text::table;
use crate::time::{CivilDate, Moment, Timestamp};

verus! {

/// Nanoseconds between two writes of the telemetry.
pub const FLUSH_INTERVAL_NANOS: u64 = 5_000_000_000;

/// What is known of the sending of one message.
#[derive(Clone, Copy, Debug, PartialEq, Eq, Structural)]
pub struct ScheduleRuntime {
    pub last_fired_at: Option<Timestamp>,
    pub fires_today: u32,
    /// The Berlin day that is counted.
    pub day_anchor: Option<CivilDate>,
}

impl Default for ScheduleRuntime {
    /// Nothing sent yet.
    fn default() -> (r: ScheduleRuntime)
        ensures
            r == ScheduleRuntime::unused(),
    {
        ScheduleRuntime { last_fired_at: None, fires_today: 0, day_anchor: None }
    }
}

impl ScheduleRuntime {
    /// Nothing sent yet.
    pub open spec fn unused() -> ScheduleRuntime {
        ScheduleRuntime { last_fired_at: None, fires_today: 0, day_anchor: None }
    }

    /// The count on a day: it begins anew where the day is another than the one
    /// that was counted.
    pub open spec fn on_day(self, today: CivilDate) -> ScheduleRuntime {
        if self.day_anchor == Some(today) {
            self
        } else {
            ScheduleRuntime { day_anchor: Some(today), fires_today: 0, ..self }
        }
    }

    /// The state once the message was sent. The count stays at its greatest
    /// value once it has reached it.
    pub open spec fn fired(self, at: Timestamp) -> ScheduleRuntime {
        let today = self.on_day(berlin_day(at));
        ScheduleRuntime {
            last_fired_at: Some(at),
            fires_today: if today.fires_today == u32::MAX {
                u32::MAX
            } else {
                (today.fires_today + 1) as u32
            },
            ..today
        }
    }

    /// Begins the count anew where the day is another than the one that was
    /// counted, and returns whether it did.
    pub fn maybe_rollover(&mut self, today: CivilDate) -> (r: bool)
        ensures
            *final(self) == old(self).on_day(today),
            r == (old(self).day_anchor != Some(today)),
    {
        if let Some(d) = self.day_anchor {
            if d == today {
                return false;
            }
        }
        self.day_anchor = Some(today);
        self.fires_today = 0;
        true
    }
}

/// The Berlin day of an instant.
pub open spec fn berlin_day(at: Timestamp) -> CivilDate {
    CivilDate { days: berlin::local_day_of(at.spec_secs()) as i64 }
}

/// The telemetry of all messages.
#[derive(Debug)]
pub struct TelemetryStore {
    entries: Vec<(String, ScheduleRuntime)>,
    dirty: bool,
    last_flush: Moment,
}

/// What the telemetry holds.
pub struct TelemetryModel {
    pub states: Map<Seq<char>, ScheduleRuntime>,
    /// Whether something has changed since the last write.
    pub dirty: bool,
    pub last_flush: Moment,
}

impl View for TelemetryStore {
    type V = TelemetryModel;

    closed spec fn view(&self) -> TelemetryModel {
        TelemetryModel {
            states: table::by_name(self.entries@),
            dirty: self.dirty,
            last_flush: self.last_flush,
        }
    }
}

impl TelemetryModel {
    /// What is known of the sending of a message.
    pub open spec fn state(self, name: Seq<char>) -> ScheduleRuntime {
        if self.states.contains_key(name) {
            self.states[name]
        } else {
            ScheduleRuntime::unused()
        }
    }

    /// Whether the telemetry is due to be written.
    pub open spec fn flush_due(self, now: Moment) -> bool {
        now.nanos - self.last_flush.nanos >= FLUSH_INTERVAL_NANOS
    }
}

impl TelemetryStore {
    #[verifier::type_invariant]
    closed spec fn inv(self) -> bool {
        table::unique(self.entries@)
    }

    /// The telemetry as it was written. Of entries with one name, the last
    /// counts.
    pub fn open(stored: Vec<(String, ScheduleRuntime)>, now: Moment) -> (r: TelemetryStore)
        ensures
            r@.states == table::by_name(stored@),
            !r@.dirty,
            r@.last_flush == now,
    {
        let mut entries: Vec<(String, ScheduleRuntime)> = Vec::new();
        let mut i: usize = 0;
        assert(table::by_name(entries@) == table::by_name(stored@.take(0)));
        while i < stored.len()
            invariant
                i <= stored@.len(),
                table::unique(entries@),
                table::by_name(entries@) == table::by_name(stored@.take(i as int)),
            decreases stored@.len() - i,
        {
            let ghost after = stored@.take(i + 1);
            assert(after.drop_last() =~= stored@.take(i as int));
            assert(after.last() == stored@[i as int]);
            table::put(&mut entries, stored[i].0.as_str(), stored[i].1);
            i = i + 1;
        }
        assert(stored@.take(i as int) =~= stored@);
        TelemetryStore { entries, dirty: false, last_flush: now }
    }

    /// The states in the order in which their messages were first sent.
    pub fn snapshot(&self) -> (r: Vec<(String, ScheduleRuntime)>)
        ensures
            table::by_name(r@) == self@.states,
            table::unique(r@),
    {
        proof {
            use_type_invariant(self);
        }
        let mut r: Vec<(String, ScheduleRuntime)> = Vec::new();
        let mut i: usize = 0;
        assert(table::by_name(r@) == table::by_name(self.entries@.take(0)));
        while i < self.entries.len()
            invariant
                i <= self.entries@.len(),
                table::unique(self.entries@),
                r@.len() == i,
                forall|j: int|
                    0 <= j < i ==> (#[trigger] r@[j]).0@ == self.entries@[j].0@ && r@[j].1
                        == self.entries@[j].1,
                table::by_name(r@) == table::by_name(self.entries@.take(i as int)),
            decreases self.entries@.len() - i,
        {
            let ghost before = r@;
            let ghost after = self.entries@.take(i + 1);
            assert(after.drop_last() =~= self.entries@.take(i as int));
            r.push((self.entries[i].0.clone(), self.entries[i].1));
            assert(r@.drop_last() =~= before);
            i = i + 1;
        }
        assert(self.entries@.take(i as int) =~= self.entries@);
        r
    }

    /// What is known of the sending of a message, where something is.
    pub fn get(&self, name: &str) -> (r: Option<ScheduleRuntime>)
        ensures
            r == if self@.states.contains_key(name@) {
                Some(self@.states[name@])
            } else {
                None
            },
    {
        proof {
            use_type_invariant(self);
        }
        match table::position(&self.entries, name) {
            Some(i) => {
                proof {
                    table::lemma_found(self.entries@, i as int);
                }
                Some(self.entries[i].1)
            },
            None => {
                proof {
                    table::lemma_absent(self.entries@, name@);
                }
                None
            },
        }
    }

    /// Notes that a message was sent, and returns whether the telemetry is due
    /// to be written.
    pub fn record_fire(&mut self, name: &str, at: Timestamp, now: Moment) -> (due: bool)
        requires
            at.valid(),
        ensures
            final(self)@.states == old(self)@.states.insert(name@, old(self)@.state(name@).fired(at)),
            final(self)@.dirty,
            final(self)@.last_flush == old(self)@.last_flush,
            due == old(self)@.flush_due(now),
    {
        let mut state = match self.get(name) {
            Some(s) => s,
            None => ScheduleRuntime::default(),
        };
        proof {
            use_type_invariant(&*self);
        }
        let _rolled = state.maybe_rollover(CivilDate { days: berlin::local_day(at) });
        state.last_fired_at = Some(at);
        state.fires_today = if state.fires_today == u32::MAX {
            u32::MAX
        } else {
            state.fires_today + 1
        };
        let mut entries: Vec<(String, ScheduleRuntime)> = Vec::new();
        std::mem::swap(&mut entries, &mut self.entries);
        table::put(&mut entries, name, state);
        self.entries = entries;
        self.dirty = true;
        now.nanos >= self.last_flush.nanos && now.nanos - self.last_flush.nanos
            >= FLUSH_INTERVAL_NANOS
    }

    /// Whether something has changed since the last write.
    pub fn is_dirty(&self) -> (b: bool)
        ensures
            b == self@.dirty,
    {
        self.dirty
    }

    /// Notes that the telemetry was written.
    pub fn flushed(&mut self, now: Moment)
        ensures
            final(self)@ == (TelemetryModel { dirty: false, last_flush: now, ..old(self)@ }),
    {
        proof {
            use_type_invariant(&*self);
        }
        self.dirty = false;
        self.last_flush = now;
    }
}

/// A second sending on the same Berlin day counts on, where the count has not
/// reached its greatest value.
pub proof fn law_sendings_of_a_day_add_up(s: ScheduleRuntime, a: Timestamp, b: Timestamp)
    requires
        berlin_day(a) == berlin_day(b),
        s.fired(a).fires_today < u32::MAX,
    ensures
        s.fired(a).fired(b).fires_today == s.fired(a).fires_today + 1,
        s.fired(a).fired(b).last_fired_at == Some(b),
{
}

/// The first sending on another Berlin day is the first that counts.
pub proof fn law_a_new_day_begins_at_one(s: ScheduleRuntime, a: Timestamp, b: Timestamp)
    requires
        berlin_day(a) != berlin_day(b),
    ensures
        s.fired(a).fired(b).fires_today == 1,
        s.fired(a).fired(b).day_anchor == Some(berlin_day(b)),
{
}

} // verus!
