//! The files of the debug journal: one for each day, of which the newest are
//! kept.

use vstd::prelude::*;
use vstd::string::StringExecFns;

use crate::text::{order, search, slice};
use crate::time;
use crate::time::Timestamp;

verus! {

/// The name of the journal file of the day.
pub fn debug_journal_file(now: Timestamp) -> (r: String)
    requires
        now.valid(),
    ensures
        r@ == time::utc_date_text(now.spec_secs()) + ".jsonl"@,
{
    let mut r = now.date_text();
    r.append(".jsonl");
    r
}

/// A file name with the extension of a journal file.
pub open spec fn journal_name(name: Seq<char>) -> bool {
    name.len() > 6 && search::finishes_with(name, ".jsonl"@)
}

/// Whether a file name has the extension of a journal file.
pub fn is_journal_name(name: &str) -> (b: bool)
    ensures
        b == journal_name(name@),
{
    proof {
        reveal_strlit(".jsonl");
    }
    match search::before_suffix(name, ".jsonl") {
        Some(stem) => !stem.as_str().is_empty(),
        None => false,
    }
}

/// The journal files among some files.
pub open spec fn journals(names: Seq<Seq<char>>) -> Seq<Seq<char>> {
    names.filter(|n: Seq<char>| journal_name(n))
}

/// The journal files that are to be deleted: all but the newest `keep`. Names
/// begin with the day, so that the order of names is the order of days.
pub fn stale_journals(names: &Vec<String>, keep: usize) -> (r: Vec<String>)
    ensures
        exists|sorted: Seq<Seq<char>>|
            {
                &&& order::ascending(sorted)
                &&& sorted.to_multiset() == journals(slice::texts(names@)).to_multiset()
                &&& #[trigger] sorted.len() == journals(slice::texts(names@)).len()
                &&& slice::texts(r@) == if sorted.len() <= keep {
                    Seq::empty()
                } else {
                    sorted.take(sorted.len() - keep)
                }
            },
{
    let ghost p = |n: Seq<char>| journal_name(n);
    let ghost all = slice::texts(names@);
    let mut files: Vec<String> = Vec::new();
    let mut i: usize = 0;
    assert(slice::texts(files@) =~= all.take(0).filter(p)) by {
        reveal(Seq::filter);
    }
    while i < names.len()
        invariant
            i <= names@.len(),
            all == slice::texts(names@),
            p == |n: Seq<char>| journal_name(n),
            slice::texts(files@) == all.take(i as int).filter(p),
        decreases names@.len() - i,
    {
        let ghost after = all.take(i + 1);
        assert(after.drop_last() =~= all.take(i as int));
        assert(after.last() == names@[i as int]@);
        assert(after.filter(p) == if p(after.last()) {
            all.take(i as int).filter(p).push(after.last())
        } else {
            all.take(i as int).filter(p)
        }) by {
            reveal(Seq::filter);
        }
        if is_journal_name(names[i].as_str()) {
            let ghost before = slice::texts(files@);
            files.push(names[i].clone());
            assert(slice::texts(files@) =~= before.push(after.last()));
        }
        i = i + 1;
    }
    assert(all.take(i as int) =~= all);
    let sorted = order::sort(files);
    let ghost order = slice::texts(sorted@);
    let mut stale: Vec<String> = Vec::new();
    if sorted.len() <= keep {
        assert(slice::texts(stale@) =~= Seq::<Seq<char>>::empty());
        assert(order.len() == journals(all).len());
        return stale;
    }
    let count: usize = sorted.len() - keep;
    let mut k: usize = 0;
    while k < count
        invariant
            k <= count <= sorted@.len(),
            stale@.len() == k,
            forall|j: int| 0 <= j < k ==> (#[trigger] stale@[j])@ == sorted@[j]@,
        decreases count - k,
    {
        stale.push(sorted[k].clone());
        k = k + 1;
    }
    assert(slice::texts(stale@) =~= order.take(order.len() - keep));
    assert(order.len() == journals(all).len());
    stale
}

/// Every journal file that is to be deleted comes before every one that is
/// kept.
pub proof fn law_the_newest_journals_are_kept(sorted: Seq<Seq<char>>, keep: nat, i: int, j: int)
    requires
        order::ascending(sorted),
        keep <= sorted.len(),
        0 <= i < sorted.len() - keep <= j < sorted.len(),
    ensures
        order::lex_le(sorted.take(sorted.len() - keep)[i], sorted[j]),
{
}

/// A journal file has a name before its extension.
pub proof fn law_journal_names(stem: Seq<char>)
    ensures
        journal_name(stem + ".jsonl"@) <==> stem.len() > 0,
{
    reveal_strlit(".jsonl");
    let name = stem + ".jsonl"@;
    assert(name.subrange(stem.len() as int, name.len() as int) =~= ".jsonl"@);
}

} // verus!
