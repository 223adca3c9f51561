//! Sets of weekdays.

use vstd::prelude::*;

use crate::time::Weekday;

verus! {

/// The weekdays on which something may happen. The empty set stands for every
/// day.
#[derive(Clone, Copy, Debug, PartialEq, Eq, Structural)]
pub struct WeekdaySet {
    mon: bool,
    tue: bool,
    wed: bool,
    thu: bool,
    fri: bool,
    sat: bool,
    sun: bool,
}

impl View for WeekdaySet {
    type V = Set<Weekday>;

    closed spec fn view(&self) -> Set<Weekday> {
        Set::new(|d: Weekday| self.member(d))
    }
}

impl Default for WeekdaySet {
    /// The empty set.
    fn default() -> (r: WeekdaySet)
        ensures
            r@ == Set::<Weekday>::empty(),
    {
        let r = WeekdaySet {
            mon: false,
            tue: false,
            wed: false,
            thu: false,
            fri: false,
            sat: false,
            sun: false,
        };
        assert(r@ =~= Set::<Weekday>::empty());
        r
    }
}

/// Whether something may happen on a day.
pub open spec fn allowed(days: Set<Weekday>, day: Weekday) -> bool {
    days == Set::<Weekday>::empty() || days.contains(day)
}

/// The days of the week, from Monday to Sunday.
pub open spec fn week() -> Seq<Weekday> {
    seq![
        Weekday::Mon,
        Weekday::Tue,
        Weekday::Wed,
        Weekday::Thu,
        Weekday::Fri,
        Weekday::Sat,
        Weekday::Sun,
    ]
}

/// The days of a set.
pub open spec fn member_of(days: Set<Weekday>) -> spec_fn(Weekday) -> bool {
    |d: Weekday| days.contains(d)
}

impl WeekdaySet {
    closed spec fn member(&self, day: Weekday) -> bool {
        match day {
            Weekday::Mon => self.mon,
            Weekday::Tue => self.tue,
            Weekday::Wed => self.wed,
            Weekday::Thu => self.thu,
            Weekday::Fri => self.fri,
            Weekday::Sat => self.sat,
            Weekday::Sun => self.sun,
        }
    }

    /// Whether no day is in the set.
    pub fn is_empty(&self) -> (b: bool)
        ensures
            b == (self@ == Set::<Weekday>::empty()),
    {
        let b = !(self.mon || self.tue || self.wed || self.thu || self.fri || self.sat || self.sun);
        proof {
            if b {
                assert(self@ =~= Set::<Weekday>::empty());
            } else {
                assert(self.mon == self@.contains(Weekday::Mon));
                assert(self.tue == self@.contains(Weekday::Tue));
                assert(self.wed == self@.contains(Weekday::Wed));
                assert(self.thu == self@.contains(Weekday::Thu));
                assert(self.fri == self@.contains(Weekday::Fri));
                assert(self.sat == self@.contains(Weekday::Sat));
                assert(self.sun == self@.contains(Weekday::Sun));
            }
        }
        b
    }

    /// Whether a day is in the set.
    pub fn contains(&self, day: Weekday) -> (b: bool)
        ensures
            b == self@.contains(day),
    {
        match day {
            Weekday::Mon => self.mon,
            Weekday::Tue => self.tue,
            Weekday::Wed => self.wed,
            Weekday::Thu => self.thu,
            Weekday::Fri => self.fri,
            Weekday::Sat => self.sat,
            Weekday::Sun => self.sun,
        }
    }

    /// Whether something may happen on a day.
    pub fn allows(&self, day: Weekday) -> (b: bool)
        ensures
            b == allowed(self@, day),
    {
        self.is_empty() || self.contains(day)
    }

    /// Puts a day into the set.
    pub fn insert(&mut self, day: Weekday)
        ensures
            final(self)@ == old(self)@.insert(day),
    {
        match day {
            Weekday::Mon => self.mon = true,
            Weekday::Tue => self.tue = true,
            Weekday::Wed => self.wed = true,
            Weekday::Thu => self.thu = true,
            Weekday::Fri => self.fri = true,
            Weekday::Sat => self.sat = true,
            Weekday::Sun => self.sun = true,
        }
        assert(self@ =~= old(self)@.insert(day));
    }

    /// The set of the days in a list.
    pub fn from_days(days: &Vec<Weekday>) -> (r: WeekdaySet)
        ensures
            r@ == days@.to_set(),
    {
        let mut r: WeekdaySet = WeekdaySet::default();
        let mut i: usize = 0;
        assert(r@ =~= days@.take(0).to_set());
        while i < days.len()
            invariant
                i <= days@.len(),
                r@ == days@.take(i as int).to_set(),
            decreases days@.len() - i,
        {
            r.insert(days[i]);
            let ghost before = days@.take(i as int);
            let ghost after = days@.take(i + 1);
            assert(after =~= before.push(days@[i as int]));
            assert(after.to_set() =~= before.to_set().insert(days@[i as int])) by {
                assert forall|d: Weekday| after.contains(d) implies before.contains(d) || d
                    == days@[i as int] by {}
                assert forall|d: Weekday| before.contains(d) || d == days@[i as int] implies
                    after.contains(d) by {
                    if before.contains(d) {
                        let k = choose|k: int| 0 <= k < before.len() && before[k] == d;
                        assert(after[k] == d);
                    } else {
                        assert(after[before.len() as int] == d);
                    }
                }
            }
            i = i + 1;
        }
        assert(days@.take(i as int) =~= days@);
        r
    }

    /// The days of the set, from Monday to Sunday.
    pub fn sorted_days(&self) -> (r: Vec<Weekday>)
        ensures
            r@ == week().filter(member_of(self@)),
    {
        let week: Vec<Weekday> = vec![
            Weekday::Mon,
            Weekday::Tue,
            Weekday::Wed,
            Weekday::Thu,
            Weekday::Fri,
            Weekday::Sat,
            Weekday::Sun,
        ];
        assert(week@ =~= self::week());
        let ghost p = member_of(self@);
        let mut r: Vec<Weekday> = Vec::new();
        let mut i: usize = 0;
        assert(r@ =~= week@.take(0).filter(p)) by {
            reveal(Seq::filter);
        }
        while i < week.len()
            invariant
                i <= week@.len(),
                p == member_of(self@),
                r@ == week@.take(i as int).filter(p),
            decreases week@.len() - i,
        {
            let ghost after = week@.take(i + 1);
            assert(after.drop_last() =~= week@.take(i as int));
            assert(after.filter(p) == if p(after.last()) {
                week@.take(i as int).filter(p).push(after.last())
            } else {
                week@.take(i as int).filter(p)
            }) by {
                reveal(Seq::filter);
            }
            if self.contains(week[i]) {
                r.push(week[i]);
            }
            i = i + 1;
        }
        assert(week@.take(i as int) =~= week@);
        r
    }
}

/// The list of the days of a set stands for that set again.
pub proof fn law_days_survive_the_list(days: Set<Weekday>)
    ensures
        week().filter(member_of(days)).to_set() == days,
{
    let p = member_of(days);
    let list = week().filter(p);
    assert forall|d: Weekday| days.contains(d) implies list.contains(d) by {
        let i = d.from_monday();
        assert(week()[i] == d);
        week().lemma_filter_contains(p, i);
    }
    assert forall|d: Weekday| list.contains(d) implies days.contains(d) by {
        let k = choose|k: int| 0 <= k < list.len() && list[k] == d;
        week().lemma_filter_pred(p, k);
    }
    assert(list.to_set() =~= days);
}

} // verus!
