//! Which aggregators are asked. One that refuses or keeps failing is left alone
//! for a while.

use vstd::prelude::*;

use crate::time::Moment;

verus! {

/// Consecutive failures after which an aggregator is left alone.
pub const ERROR_STREAK_PARK: u8 = 3;

/// The health of one aggregator.
#[derive(Clone, Copy, Debug, PartialEq, Eq, Structural)]
pub struct BackendHealth {
    /// The aggregator is asked again from this moment on.
    pub parked_until: Moment,
    /// Consecutive failures that count.
    pub error_streak: u8,
}

impl BackendHealth {
    pub open spec fn live(self, now: Moment) -> bool {
        self.parked_until.nanos <= now.nanos
    }

    /// Fewer failures have been counted than would park the aggregator.
    pub open spec fn sound(self) -> bool {
        self.error_streak < ERROR_STREAK_PARK
    }

    pub open spec fn parked(self, until: Moment) -> BackendHealth {
        BackendHealth { parked_until: until, error_streak: 0 }
    }

    pub open spec fn succeeded(self) -> BackendHealth {
        BackendHealth { error_streak: 0, ..self }
    }

    /// One more failure has been counted.
    pub open spec fn failed(self, until: Moment) -> BackendHealth {
        if self.error_streak + 1 >= ERROR_STREAK_PARK {
            self.parked(until)
        } else {
            BackendHealth { error_streak: (self.error_streak + 1) as u8, ..self }
        }
    }
}

/// The health of all aggregators, in the order of their priority.
#[derive(Debug)]
pub struct Health {
    pub backends: Vec<BackendHealth>,
    /// For how long an aggregator is left alone, in nanoseconds.
    pub cooldown: u64,
}

/// The places of the aggregators that are asked, in order.
pub open spec fn live_places(backends: Seq<BackendHealth>, now: Moment) -> Seq<int>
    decreases backends.len(),
{
    if backends.len() == 0 {
        Seq::empty()
    } else {
        let before = live_places(backends.drop_last(), now);
        if backends.last().live(now) {
            before.push(backends.len() - 1)
        } else {
            before
        }
    }
}

pub open spec fn places(v: Seq<usize>) -> Seq<int> {
    v.map_values(|i: usize| i as int)
}

impl Health {
    /// The moment until which an aggregator is left alone from now on.
    pub open spec fn until(self, now: Moment) -> Moment {
        Moment { nanos: (now.nanos + self.cooldown) as u64 }
    }

    /// The clock can be advanced by the time for which an aggregator is left
    /// alone.
    pub open spec fn in_range(self, now: Moment) -> bool {
        now.nanos + self.cooldown <= u64::MAX
    }

    /// All aggregators are asked at first.
    pub fn new(count: usize, now: Moment, cooldown: u64) -> (r: Health)
        ensures
            r.cooldown == cooldown,
            r.backends@ == Seq::new(
                count as nat,
                |i: int| BackendHealth { parked_until: now, error_streak: 0 },
            ),
    {
        let mut backends: Vec<BackendHealth> = Vec::new();
        let mut i: usize = 0;
        while i < count
            invariant
                i <= count,
                backends@.len() == i,
                forall|j: int|
                    0 <= j < i ==> #[trigger] backends@[j] == (BackendHealth {
                        parked_until: now,
                        error_streak: 0,
                    }),
            decreases count - i,
        {
            backends.push(BackendHealth { parked_until: now, error_streak: 0 });
            i = i + 1;
        }
        Health { backends, cooldown }
    }

    /// The places of the aggregators that are asked, in order.
    pub fn live_backend_indices(&self, now: Moment) -> (r: Vec<usize>)
        ensures
            places(r@) == live_places(self.backends@, now),
            forall|i: int| 0 <= i < r@.len() ==> (#[trigger] r@[i]) < self.backends@.len(),
    {
        let mut r: Vec<usize> = Vec::new();
        let mut i: usize = 0;
        assert(places(r@) =~= live_places(self.backends@.take(0), now));
        while i < self.backends.len()
            invariant
                i <= self.backends@.len(),
                places(r@) == live_places(self.backends@.take(i as int), now),
                forall|j: int| 0 <= j < r@.len() ==> (#[trigger] r@[j]) < i,
            decreases self.backends@.len() - i,
        {
            assert(self.backends@.take(i + 1).drop_last() =~= self.backends@.take(i as int));
            if self.backends[i].parked_until.nanos <= now.nanos {
                let ghost before = places(r@);
                r.push(i);
                assert(places(r@) =~= before.push(i as int));
            }
            i = i + 1;
        }
        assert(self.backends@.take(i as int) =~= self.backends@);
        r
    }

    /// The number of aggregators that are left alone.
    pub fn parked_backend_count(&self, now: Moment) -> (n: usize)
        ensures
            n == self.backends@.len() - live_places(self.backends@, now).len(),
    {
        let mut n: usize = 0;
        let mut i: usize = 0;
        while i < self.backends.len()
            invariant
                i <= self.backends@.len(),
                n <= i,
                n == i - live_places(self.backends@.take(i as int), now).len(),
            decreases self.backends@.len() - i,
        {
            assert(self.backends@.take(i + 1).drop_last() =~= self.backends@.take(i as int));
            if self.backends[i].parked_until.nanos > now.nanos {
                n = n + 1;
            }
            i = i + 1;
        }
        assert(self.backends@.take(i as int) =~= self.backends@);
        n
    }

    /// Leaves an aggregator alone for a while.
    pub fn park_backend(&mut self, index: usize, now: Moment)
        requires
            old(self).in_range(now),
        ensures
            final(self).cooldown == old(self).cooldown,
            final(self).backends@ == if index < old(self).backends@.len() {
                old(self).backends@.update(
                    index as int,
                    old(self).backends@[index as int].parked(old(self).until(now)),
                )
            } else {
                old(self).backends@
            },
    {
        if index < self.backends.len() {
            let until = Moment { nanos: now.nanos + self.cooldown };
            self.backends.set(index, BackendHealth { parked_until: until, error_streak: 0 });
        }
    }

    /// An aggregator has answered.
    pub fn record_success(&mut self, index: usize)
        ensures
            final(self).cooldown == old(self).cooldown,
            final(self).backends@ == if index < old(self).backends@.len() {
                old(self).backends@.update(
                    index as int,
                    old(self).backends@[index as int].succeeded(),
                )
            } else {
                old(self).backends@
            },
    {
        if index < self.backends.len() {
            let h = self.backends[index];
            self.backends.set(
                index,
                BackendHealth { parked_until: h.parked_until, error_streak: 0 },
            );
        }
    }

    /// Counts a failure of an aggregator, and leaves it alone for a while where
    /// that is one too many.
    pub fn record_retryable_error(&mut self, index: usize, now: Moment)
        requires
            old(self).in_range(now),
        ensures
            final(self).cooldown == old(self).cooldown,
            final(self).backends@ == if index < old(self).backends@.len() {
                old(self).backends@.update(
                    index as int,
                    old(self).backends@[index as int].failed(old(self).until(now)),
                )
            } else {
                old(self).backends@
            },
    {
        if index < self.backends.len() {
            let h = self.backends[index];
            let until = Moment { nanos: now.nanos + self.cooldown };
            let after = if h.error_streak >= ERROR_STREAK_PARK - 1 {
                BackendHealth { parked_until: until, error_streak: 0 }
            } else {
                BackendHealth { parked_until: h.parked_until, error_streak: h.error_streak + 1 }
            };
            self.backends.set(index, after);
        }
    }
}

/// The count of failures never reaches the limit.
pub proof fn law_streaks_stay_below_the_limit(h: BackendHealth, until: Moment)
    requires
        h.sound(),
    ensures
        h.parked(until).sound(),
        h.succeeded().sound(),
        h.failed(until).sound(),
{
}

/// The third failure in a row parks an aggregator, the first two do not, and
/// a success in between starts the count anew.
pub proof fn law_the_third_failure_parks(h: BackendHealth, a: Moment, b: Moment, c: Moment)
    requires
        h.error_streak == 0,
    ensures
        h.failed(a).parked_until == h.parked_until,
        h.failed(a).failed(b).parked_until == h.parked_until,
        h.failed(a).failed(b).failed(c) == h.parked(c),
        h.failed(a).failed(b).succeeded() == h.succeeded(),
{
}

/// An aggregator that is left alone is not asked until then, and is asked
/// again from then on.
pub proof fn law_parking_lasts_for_the_cooldown(h: BackendHealth, until: Moment, now: Moment)
    ensures
        h.parked(until).live(now) <==> until.nanos <= now.nanos,
{
}

} // verus!
