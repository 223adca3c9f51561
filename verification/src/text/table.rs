//! Lists of named values.

use vstd::prelude::*;

use super::slice;

verus! {

/// What each name stands for. Of entries with one name, the last counts.
pub open spec fn by_name<V>(entries: Seq<(String, V)>) -> Map<Seq<char>, V>
    decreases entries.len(),
{
    if entries.len() == 0 {
        Map::empty()
    } else {
        by_name(entries.drop_last()).insert(entries.last().0@, entries.last().1)
    }
}

/// Whether no name occurs twice.
pub open spec fn unique<V>(entries: Seq<(String, V)>) -> bool {
    forall|i: int, j: int|
        0 <= i < j < entries.len() ==> (#[trigger] entries[i]).0@ != (#[trigger] entries[j]).0@
}

/// A name stands for what its entry holds.
pub proof fn lemma_found<V>(entries: Seq<(String, V)>, i: int)
    requires
        unique(entries),
        0 <= i < entries.len(),
    ensures
        by_name(entries).contains_pair(entries[i].0@, entries[i].1),
    decreases entries.len(),
{
    let front = entries.drop_last();
    if i < front.len() {
        assert(front[i] == entries[i]);
        lemma_found(front, i);
    }
}

/// A name stands for nothing where no entry has it.
pub proof fn lemma_absent<V>(entries: Seq<(String, V)>, name: Seq<char>)
    requires
        forall|i: int| 0 <= i < entries.len() ==> (#[trigger] entries[i]).0@ != name,
    ensures
        !by_name(entries).contains_key(name),
    decreases entries.len(),
{
    if entries.len() > 0 {
        let front = entries.drop_last();
        assert forall|i: int| 0 <= i < front.len() implies (#[trigger] front[i]).0@ != name by {
            assert(front[i] == entries[i]);
        }
        assert(entries.last() == entries[entries.len() - 1]);
        lemma_absent(front, name);
    }
}

/// Another value under a name changes what the name stands for, and nothing
/// else.
proof fn lemma_update<V>(entries: Seq<(String, V)>, i: int, e: (String, V))
    requires
        unique(entries),
        0 <= i < entries.len(),
        e.0@ == entries[i].0@,
    ensures
        by_name(entries.update(i, e)) == by_name(entries).insert(e.0@, e.1),
        unique(entries.update(i, e)),
    decreases entries.len(),
{
    let after = entries.update(i, e);
    let front = entries.drop_last();
    if i == front.len() {
        assert(after.drop_last() =~= front);
        assert(by_name(after) =~= by_name(entries).insert(e.0@, e.1));
    } else {
        assert(after.drop_last() =~= front.update(i, e));
        assert(front[i] == entries[i]);
        lemma_update(front, i, e);
        assert(entries[i].0@ != entries.last().0@);
        assert(by_name(after) =~= by_name(entries).insert(e.0@, e.1));
    }
}

/// A new name stands for its value wherever its entry goes.
pub proof fn lemma_insert<V>(entries: Seq<(String, V)>, k: int, e: (String, V))
    requires
        unique(entries),
        0 <= k <= entries.len(),
        forall|i: int| 0 <= i < entries.len() ==> (#[trigger] entries[i]).0@ != e.0@,
    ensures
        unique(entries.insert(k, e)),
        by_name(entries.insert(k, e)) == by_name(entries).insert(e.0@, e.1),
    decreases entries.len(),
{
    let after = entries.insert(k, e);
    assert forall|i: int, j: int| 0 <= i < j < after.len() implies (#[trigger] after[i]).0@ != (
    #[trigger] after[j]).0@ by {
        let a = if i < k {
            i
        } else {
            i - 1
        };
        let b = if j < k {
            j
        } else {
            j - 1
        };
        if i != k {
            assert(after[i] == entries[a]);
        }
        if j != k {
            assert(after[j] == entries[b]);
        }
    }
    if k == entries.len() {
        assert(after.drop_last() =~= entries);
    } else {
        let front = entries.drop_last();
        assert(after.drop_last() =~= front.insert(k, e));
        assert(after.last() == entries.last());
        assert forall|i: int| 0 <= i < front.len() implies (#[trigger] front[i]).0@ != e.0@ by {
            assert(front[i] == entries[i]);
        }
        assert(unique(front)) by {
            assert forall|i: int, j: int| 0 <= i < j < front.len() implies (
            #[trigger] front[i]).0@ != (#[trigger] front[j]).0@ by {
                assert(front[i] == entries[i] && front[j] == entries[j]);
            }
        }
        lemma_insert(front, k, e);
        assert(entries.last() == entries[entries.len() - 1]);
        assert(by_name(after) =~= by_name(entries).insert(e.0@, e.1));
    }
}

/// The place of the entry with a name.
pub fn position<V>(entries: &Vec<(String, V)>, name: &str) -> (r: Option<usize>)
    ensures
        match r {
            Some(i) => i < entries@.len() && entries@[i as int].0@ == name@,
            None => forall|i: int|
                0 <= i < entries@.len() ==> (#[trigger] entries@[i]).0@ != name@,
        },
{
    let mut i: usize = 0;
    while i < entries.len()
        invariant
            i <= entries@.len(),
            forall|j: int| 0 <= j < i ==> (#[trigger] entries@[j]).0@ != name@,
        decreases entries@.len() - i,
    {
        if slice::same(entries[i].0.as_str(), name) {
            return Some(i);
        }
        i = i + 1;
    }
    None
}

/// Puts a value under a name.
pub fn put<V>(entries: &mut Vec<(String, V)>, name: &str, value: V)
    requires
        unique(old(entries)@),
    ensures
        unique(final(entries)@),
        by_name(final(entries)@) == by_name(old(entries)@).insert(name@, value),
{
    match position(entries, name) {
        Some(i) => {
            let e = (name.to_owned(), value);
            proof {
                lemma_update(entries@, i as int, e);
            }
            entries.set(i, e);
        },
        None => {
            let ghost before = entries@;
            entries.push((name.to_owned(), value));
            assert(entries@.drop_last() =~= before);
        },
    }
}

} // verus!
