//! The union of what several aggregators report.

use vstd::prelude::*;

use crate::aviation::types::{AircraftModel, NearbyAircraft};
use crate::decimal::Decimal;
use crate::text::{chars, slice};

verus! {

/// Positions whose ages, in millionths of a second, fall into one window of
/// this length are equally fresh.
pub const FRESH_WINDOW: i64 = 5_000_000;

/// The freshness of a position, where less is fresher. A position of unknown or
/// impossible age is the least fresh.
pub open spec fn freshness(seen_pos: Option<Decimal>) -> int {
    match seen_pos {
        Some(s) => if s.micros >= 0 {
            s.micros as int / FRESH_WINDOW as int
        } else {
            u64::MAX as int
        },
        None => u64::MAX as int,
    }
}

/// The freshness of a position, where less is fresher.
pub fn freshness_bucket(seen_pos: Option<Decimal>) -> (n: u64)
    ensures
        n == freshness(seen_pos),
{
    match seen_pos {
        Some(s) => if s.micros >= 0 {
            (s.micros / FRESH_WINDOW) as u64
        } else {
            u64::MAX
        },
        None => u64::MAX,
    }
}

impl AircraftModel {
    /// The strength of the signal. An unknown one is the weakest.
    pub open spec fn strength(self) -> int {
        match self.rssi {
            Some(r) => r.micros as int,
            None => i64::MIN as int,
        }
    }

    /// The report is better than another one about the same aircraft: it is
    /// fresher, or as fresh and received more strongly.
    pub open spec fn beats(self, other: AircraftModel) -> bool {
        let a = freshness(self.seen_pos);
        let b = freshness(other.seen_pos);
        a < b || (a == b && self.strength() > other.strength())
    }

    /// What tells the aircraft apart: its address in lower case, where it has
    /// one.
    pub open spec fn key(self) -> Option<Seq<char>> {
        match self.hex {
            Some(hex) => if hex.len() > 0 {
                Some(chars::ascii_lowered(hex))
            } else {
                None
            },
            None => None,
        }
    }
}

pub open spec fn aircraft_models(v: Seq<NearbyAircraft>) -> Seq<AircraftModel> {
    v.map_values(|a: NearbyAircraft| a@)
}

fn is_better(a: &NearbyAircraft, b: &NearbyAircraft) -> (r: bool)
    ensures
        r == a@.beats(b@),
{
    let x: u64 = freshness_bucket(a.seen_pos);
    let y: u64 = freshness_bucket(b.seen_pos);
    if x != y {
        return x < y;
    }
    let s: i64 = match a.rssi {
        Some(r) => r.micros,
        None => i64::MIN,
    };
    let t: i64 = match b.rssi {
        Some(r) => r.micros,
        None => i64::MIN,
    };
    s > t
}

/// The best of the reports about one aircraft. Of equally good ones it is the
/// first.
pub open spec fn winner(group: Seq<AircraftModel>) -> AircraftModel
    decreases group.len(),
{
    if group.len() <= 1 {
        group[0]
    } else {
        let best = winner(group.drop_last());
        if group.last().beats(best) {
            group.last()
        } else {
            best
        }
    }
}

/// The best of the reports about one aircraft.
pub fn pick_winner(group: Vec<NearbyAircraft>) -> (r: NearbyAircraft)
    requires
        group@.len() > 0,
    ensures
        r@ == winner(aircraft_models(group@)),
{
    let ghost all = aircraft_models(group@);
    let mut best: usize = 0;
    let mut i: usize = 1;
    assert(all.take(1)[0] == all[0]);
    while i < group.len()
        invariant
            0 <= best < i <= group@.len(),
            all == aircraft_models(group@),
            all[best as int] == winner(all.take(i as int)),
        decreases group@.len() - i,
    {
        assert(all.take(i + 1).drop_last() =~= all.take(i as int));
        assert(all.take(i + 1).last() == group@[i as int]@);
        assert(all[best as int] == group@[best as int]@);
        if is_better(&group[i], &group[best]) {
            best = i;
        }
        i = i + 1;
    }
    assert(all.take(i as int) =~= all);
    assert(all[best as int] == group@[best as int]@);
    group[best].duplicate()
}

/// The addresses that occur, each once, in the order of their first occurrence.
pub open spec fn keys(all: Seq<AircraftModel>) -> Seq<Seq<char>>
    decreases all.len(),
{
    if all.len() == 0 {
        Seq::empty()
    } else {
        let before = keys(all.drop_last());
        match all.last().key() {
            Some(k) => if before.contains(k) {
                before
            } else {
                before.push(k)
            },
            None => before,
        }
    }
}

/// The reports about one aircraft.
pub open spec fn group(all: Seq<AircraftModel>, key: Seq<char>) -> Seq<AircraftModel> {
    all.filter(|a: AircraftModel| a.key() == Some(key))
}

/// The reports without an address.
pub open spec fn nameless(all: Seq<AircraftModel>) -> Seq<AircraftModel> {
    all.filter(|a: AircraftModel| a.key() is None)
}

/// The union of all reports: the best one about each aircraft, then those
/// without an address.
pub open spec fn merged(all: Seq<AircraftModel>) -> Seq<AircraftModel> {
    keys(all).map_values(|k: Seq<char>| winner(group(all, k))) + nameless(all)
}

/// The reports of all aggregators, one aggregator after the other.
pub open spec fn gathered(per_backend: Seq<Vec<NearbyAircraft>>) -> Seq<AircraftModel>
    decreases per_backend.len(),
{
    if per_backend.len() == 0 {
        Seq::empty()
    } else {
        gathered(per_backend.drop_last()) + aircraft_models(per_backend.last()@)
    }
}

fn gather(per_backend: &Vec<Vec<NearbyAircraft>>) -> (r: Vec<NearbyAircraft>)
    ensures
        aircraft_models(r@) == gathered(per_backend@),
{
    let mut all: Vec<NearbyAircraft> = Vec::new();
    let mut i: usize = 0;
    assert(aircraft_models(all@) =~= gathered(per_backend@.take(0)));
    while i < per_backend.len()
        invariant
            i <= per_backend@.len(),
            aircraft_models(all@) == gathered(per_backend@.take(i as int)),
        decreases per_backend@.len() - i,
    {
        let list = &per_backend[i];
        let ghost before = gathered(per_backend@.take(i as int));
        let ghost add = aircraft_models(list@);
        assert(per_backend@.take(i + 1).drop_last() =~= per_backend@.take(i as int));
        let mut j: usize = 0;
        assert(before + add.take(0) =~= before);
        while j < list.len()
            invariant
                j <= list@.len(),
                add == aircraft_models(list@),
                aircraft_models(all@) == before + add.take(j as int),
            decreases list@.len() - j,
        {
            let ghost so_far = aircraft_models(all@);
            all.push(list[j].duplicate());
            assert(aircraft_models(all@) =~= so_far.push(add[j as int]));
            assert(add.take(j + 1) =~= add.take(j as int).push(add[j as int]));
            assert(so_far.push(add[j as int]) =~= before + add.take(j + 1));
            j = j + 1;
        }
        assert(add.take(j as int) =~= add);
        i = i + 1;
    }
    assert(per_backend@.take(i as int) =~= per_backend@);
    all
}

fn key_of(a: &NearbyAircraft) -> (r: Option<String>)
    ensures
        slice::opt_text(r) == a@.key(),
{
    match &a.hex {
        Some(hex) => if hex.as_str().is_empty() {
            None
        } else {
            Some(slice::to_ascii_lower(hex.as_str()))
        },
        None => None,
    }
}

fn holds(list: &Vec<String>, text: &str) -> (b: bool)
    ensures
        b == slice::texts(list@).contains(text@),
{
    let mut i: usize = 0;
    while i < list.len()
        invariant
            i <= list@.len(),
            forall|j: int| 0 <= j < i ==> #[trigger] slice::texts(list@)[j] != text@,
        decreases list@.len() - i,
    {
        if slice::same(list[i].as_str(), text) {
            assert(slice::texts(list@)[i as int] == text@);
            return true;
        }
        i = i + 1;
    }
    false
}

fn collect_keys(all: &Vec<NearbyAircraft>) -> (r: Vec<String>)
    ensures
        slice::texts(r@) == keys(aircraft_models(all@)),
{
    let ghost models = aircraft_models(all@);
    let mut order: Vec<String> = Vec::new();
    let mut i: usize = 0;
    assert(slice::texts(order@) =~= keys(models.take(0)));
    while i < all.len()
        invariant
            i <= all@.len(),
            models == aircraft_models(all@),
            slice::texts(order@) == keys(models.take(i as int)),
        decreases all@.len() - i,
    {
        assert(models.take(i + 1).drop_last() =~= models.take(i as int));
        assert(models.take(i + 1).last() == all@[i as int]@);
        if let Some(key) = key_of(&all[i]) {
            if !holds(&order, key.as_str()) {
                let ghost before = slice::texts(order@);
                let ghost k = key@;
                order.push(key);
                assert(slice::texts(order@) =~= before.push(k));
            }
        }
        i = i + 1;
    }
    assert(models.take(i as int) =~= models);
    order
}

/// The reports with a given key, or without one.
fn select(all: &Vec<NearbyAircraft>, key: Option<&str>) -> (r: Vec<NearbyAircraft>)
    ensures
        aircraft_models(r@) == aircraft_models(all@).filter(
            |a: AircraftModel| a.key() == slice::opt_str(key),
        ),
{
    let ghost models = aircraft_models(all@);
    let ghost p = |a: AircraftModel| a.key() == slice::opt_str(key);
    let mut out: Vec<NearbyAircraft> = Vec::new();
    let mut i: usize = 0;
    assert(aircraft_models(out@) =~= models.take(0).filter(p)) by {
        reveal(Seq::filter);
    }
    while i < all.len()
        invariant
            i <= all@.len(),
            models == aircraft_models(all@),
            p == |a: AircraftModel| a.key() == slice::opt_str(key),
            aircraft_models(out@) == models.take(i as int).filter(p),
        decreases all@.len() - i,
    {
        let ghost after = models.take(i + 1);
        assert(after.drop_last() =~= models.take(i as int));
        assert(after.last() == all@[i as int]@);
        assert(after.filter(p) == if p(after.last()) {
            models.take(i as int).filter(p).push(after.last())
        } else {
            models.take(i as int).filter(p)
        }) by {
            reveal(Seq::filter);
        }
        let own = key_of(&all[i]);
        let fits = match (&own, key) {
            (Some(a), Some(b)) => slice::same(a.as_str(), b),
            (None, None) => true,
            _ => false,
        };
        if fits {
            let ghost before = aircraft_models(out@);
            out.push(all[i].duplicate());
            assert(aircraft_models(out@) =~= before.push(after.last()));
        }
        i = i + 1;
    }
    assert(models.take(i as int) =~= models);
    out
}

/// Every address that occurs belongs to a report.
proof fn lemma_keys_occur(all: Seq<AircraftModel>, k: Seq<char>)
    ensures
        keys(all).contains(k) <==> exists|i: int|
            0 <= i < all.len() && (#[trigger] all[i]).key() == Some(k),
    decreases all.len(),
{
    if all.len() > 0 {
        let rest = all.drop_last();
        lemma_keys_occur(rest, k);
        assert(all.last() == all[all.len() - 1]);
        if keys(all).contains(k) {
            let at = choose|at: int| 0 <= at < keys(all).len() && keys(all)[at] == k;
            if at < keys(rest).len() {
                assert(keys(rest)[at] == k);
                assert(keys(rest).contains(k));
                let i = choose|i: int| 0 <= i < rest.len() && (#[trigger] rest[i]).key() == Some(k);
                assert(all[i].key() == Some(k));
            }
        }
        if exists|i: int| 0 <= i < all.len() && (#[trigger] all[i]).key() == Some(k) {
            let i = choose|i: int| 0 <= i < all.len() && (#[trigger] all[i]).key() == Some(k);
            if i < rest.len() {
                assert(rest[i].key() == Some(k));
                let at = choose|at: int| 0 <= at < keys(rest).len() && keys(rest)[at] == k;
                assert(keys(all)[at] == k);
            } else if keys(rest).contains(k) {
                let at = choose|at: int| 0 <= at < keys(rest).len() && keys(rest)[at] == k;
                assert(keys(all)[at] == k);
            } else {
                assert(keys(all).last() == k);
            }
        }
    }
}

/// The group of an address that occurs is not empty.
proof fn lemma_group_nonempty(all: Seq<AircraftModel>, k: Seq<char>)
    requires
        keys(all).contains(k),
    ensures
        group(all, k).len() > 0,
{
    lemma_keys_occur(all, k);
    let i = choose|i: int| 0 <= i < all.len() && (#[trigger] all[i]).key() == Some(k);
    all.lemma_filter_contains(|a: AircraftModel| a.key() == Some(k), i);
}

/// Merges what the aggregators report, in the order of their priority. Each
/// aircraft comes up once, in its best report; an address is compared in any
/// case and left as it is. Reports without an address are passed through.
pub fn merge_aircraft(per_backend: &Vec<Vec<NearbyAircraft>>) -> (r: Vec<NearbyAircraft>)
    ensures
        aircraft_models(r@) == merged(gathered(per_backend@)),
{
    let all = gather(per_backend);
    let ghost models = aircraft_models(all@);
    let order = collect_keys(&all);
    let ghost wins = keys(models).map_values(|k: Seq<char>| winner(group(models, k)));
    let mut out: Vec<NearbyAircraft> = Vec::new();
    let mut i: usize = 0;
    assert(aircraft_models(out@) =~= wins.take(0));
    while i < order.len()
        invariant
            i <= order@.len(),
            models == aircraft_models(all@),
            slice::texts(order@) == keys(models),
            wins == keys(models).map_values(|k: Seq<char>| winner(group(models, k))),
            aircraft_models(out@) == wins.take(i as int),
        decreases order@.len() - i,
    {
        let ghost k = order@[i as int]@;
        assert(keys(models)[i as int] == k);
        let members = select(&all, Some(order[i].as_str()));
        proof {
            lemma_group_nonempty(models, k);
            assert(aircraft_models(members@) == group(models, k));
            assert(aircraft_models(members@).len() == members@.len());
        }
        let best = pick_winner(members);
        let ghost m = best@;
        let ghost before = aircraft_models(out@);
        out.push(best);
        assert(aircraft_models(out@) =~= before.push(m));
        assert(wins.take(i + 1) =~= wins.take(i as int).push(wins[i as int]));
        i = i + 1;
    }
    assert(wins.take(i as int) =~= wins);
    let mut rest = select(&all, None);
    assert(aircraft_models(rest@) =~= nameless(models)) by {
        let p = |a: AircraftModel| a.key() == None::<Seq<char>>;
        let q = |a: AircraftModel| a.key() is None;
        assert(p =~= q);
    }
    let ghost before = aircraft_models(out@);
    let ghost tail = aircraft_models(rest@);
    out.append(&mut rest);
    assert(aircraft_models(out@) =~= before + tail);
    out
}

/// A winner is one of the reports, and none of them beats it.
proof fn lemma_winner(g: Seq<AircraftModel>)
    requires
        g.len() > 0,
    ensures
        g.contains(winner(g)),
        forall|i: int| 0 <= i < g.len() ==> !(#[trigger] g[i]).beats(winner(g)),
    decreases g.len(),
{
    if g.len() > 1 {
        let rest = g.drop_last();
        lemma_winner(rest);
        let at = choose|at: int| 0 <= at < rest.len() && rest[at] == winner(rest);
        assert(g[at] == winner(rest));
        assert(g.last() == g[g.len() - 1]);
        assert forall|i: int| 0 <= i < g.len() implies !(#[trigger] g[i]).beats(winner(g)) by {
            if i < rest.len() {
                assert(!rest[i].beats(winner(rest)));
            }
        }
    } else {
        assert(g[0] == winner(g));
    }
}

/// No address comes up twice.
proof fn lemma_keys_distinct(all: Seq<AircraftModel>)
    ensures
        keys(all).no_duplicates(),
    decreases all.len(),
{
    if all.len() > 0 {
        lemma_keys_distinct(all.drop_last());
    }
}

/// The winner of a group has the address of the group.
proof fn lemma_winner_key(all: Seq<AircraftModel>, k: Seq<char>)
    requires
        keys(all).contains(k),
    ensures
        winner(group(all, k)).key() == Some(k),
        all.contains(winner(group(all, k))),
{
    let p = |a: AircraftModel| a.key() == Some(k);
    lemma_group_nonempty(all, k);
    lemma_winner(group(all, k));
    all.lemma_filter_contains_rev(p, winner(group(all, k)));
    let g = group(all, k);
    let at = choose|at: int| 0 <= at < g.len() && g[at] == winner(g);
    all.lemma_filter_pred(p, at);
}

/// Merging invents nothing: every report of the union is one of the reports.
pub proof fn law_merging_invents_nothing(all: Seq<AircraftModel>, i: int)
    requires
        0 <= i < merged(all).len(),
    ensures
        all.contains(merged(all)[i]),
{
    let n = keys(all).len();
    if i < n {
        assert(keys(all).contains(keys(all)[i]));
        lemma_winner_key(all, keys(all)[i]);
    } else {
        let p = |a: AircraftModel| a.key() is None;
        assert(merged(all)[i] == nameless(all)[i - n]);
        assert(nameless(all).contains(nameless(all)[i - n]));
        all.lemma_filter_contains_rev(p, nameless(all)[i - n]);
    }
}

/// Merging loses nothing: for every report with an address the union holds one
/// with the same address that it does not beat, and reports without an address
/// are all there.
pub proof fn law_merging_loses_nothing(all: Seq<AircraftModel>, i: int)
    requires
        0 <= i < all.len(),
    ensures
        match all[i].key() {
            Some(k) => exists|j: int|
                0 <= j < merged(all).len() && (#[trigger] merged(all)[j]).key() == Some(k)
                    && !all[i].beats(merged(all)[j]),
            None => merged(all).contains(all[i]),
        },
{
    let n = keys(all).len();
    match all[i].key() {
        Some(k) => {
            let p = |a: AircraftModel| a.key() == Some(k);
            lemma_keys_occur(all, k);
            let j = choose|j: int| 0 <= j < n && keys(all)[j] == k;
            lemma_winner_key(all, k);
            let g = group(all, k);
            all.lemma_filter_contains(p, i);
            let at = choose|at: int| 0 <= at < g.len() && g[at] == all[i];
            lemma_winner(g);
            assert(!g[at].beats(winner(g)));
            assert(merged(all)[j] == winner(g));
        },
        None => {
            let p = |a: AircraftModel| a.key() is None;
            all.lemma_filter_contains(p, i);
            let at = choose|at: int| 0 <= at < nameless(all).len() && nameless(all)[at] == all[i];
            assert(merged(all)[n + at] == all[i]);
        },
    }
}

/// No aircraft comes up twice in the union.
pub proof fn law_merging_leaves_no_doubles(all: Seq<AircraftModel>, i: int, j: int)
    requires
        0 <= i < j < merged(all).len(),
        merged(all)[i].key() is Some,
    ensures
        merged(all)[i].key() != merged(all)[j].key(),
{
    let n = keys(all).len();
    lemma_keys_distinct(all);
    if j < n {
        assert(keys(all).contains(keys(all)[i]));
        assert(keys(all).contains(keys(all)[j]));
        lemma_winner_key(all, keys(all)[i]);
        lemma_winner_key(all, keys(all)[j]);
    } else {
        let p = |a: AircraftModel| a.key() is None;
        assert(merged(all)[j] == nameless(all)[j - n]);
        all.lemma_filter_pred(p, j - n);
    }
}

} // verus!
