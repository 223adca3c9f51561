//! The lexicographic order of texts, and sorting by it.

use vstd::prelude::*;

use super::slice;

verus! {

/// `a` comes before `b`, or is `b`, in the order of code points.
pub open spec fn lex_le(a: Seq<char>, b: Seq<char>) -> bool
    decreases a.len(),
{
    if a.len() == 0 {
        true
    } else if b.len() == 0 {
        false
    } else if a[0] == b[0] {
        lex_le(a.drop_first(), b.drop_first())
    } else {
        a[0] < b[0]
    }
}

/// Of two texts one comes first.
pub proof fn lemma_lex_total(a: Seq<char>, b: Seq<char>)
    ensures
        lex_le(a, b) || lex_le(b, a),
    decreases a.len(),
{
    if a.len() > 0 && b.len() > 0 && a[0] == b[0] {
        lemma_lex_total(a.drop_first(), b.drop_first());
    }
}

/// The order is transitive.
pub proof fn lemma_lex_transitive(a: Seq<char>, b: Seq<char>, c: Seq<char>)
    requires
        lex_le(a, b),
        lex_le(b, c),
    ensures
        lex_le(a, c),
    decreases a.len(),
{
    if a.len() > 0 && b.len() > 0 && c.len() > 0 && a[0] == b[0] && b[0] == c[0] {
        lemma_lex_transitive(a.drop_first(), b.drop_first(), c.drop_first());
    }
}

/// Two texts that come before each other are the same.
pub proof fn lemma_lex_antisymmetric(a: Seq<char>, b: Seq<char>)
    requires
        lex_le(a, b),
        lex_le(b, a),
    ensures
        a == b,
    decreases a.len(),
{
    if a.len() > 0 && b.len() > 0 {
        lemma_lex_antisymmetric(a.drop_first(), b.drop_first());
        assert(a =~= seq![a[0]] + a.drop_first());
        assert(b =~= seq![b[0]] + b.drop_first());
    } else {
        assert(a =~= b);
    }
}

/// The texts are in ascending order.
pub open spec fn ascending(v: Seq<Seq<char>>) -> bool {
    forall|i: int, j: int| 0 <= i <= j < v.len() ==> lex_le(#[trigger] v[i], #[trigger] v[j])
}

/// Whether `a` comes before `b`, or is `b`.
pub fn not_after(a: &str, b: &str) -> (r: bool)
    ensures
        r == lex_le(a@, b@),
{
    let x = slice::chars_of(a);
    let y = slice::chars_of(b);
    let mut i: usize = 0;
    assert(x@.skip(0) =~= x@);
    assert(y@.skip(0) =~= y@);
    while i < x.len()
        invariant
            i <= x@.len(),
            i <= y@.len(),
            x@ == a@,
            y@ == b@,
            lex_le(x@.skip(i as int), y@.skip(i as int)) == lex_le(a@, b@),
        decreases x@.len() - i,
    {
        if i >= y.len() {
            return false;
        }
        if x[i] != y[i] {
            return x[i] < y[i];
        }
        assert(x@.skip(i as int).drop_first() =~= x@.skip(i + 1));
        assert(y@.skip(i as int).drop_first() =~= y@.skip(i + 1));
        i = i + 1;
    }
    true
}

/// The texts in ascending order.
pub fn sort(v: Vec<String>) -> (r: Vec<String>)
    ensures
        ascending(slice::texts(r@)),
        slice::texts(r@).to_multiset() == slice::texts(v@).to_multiset(),
        r@.len() == v@.len(),
{
    let mut rest = v;
    let mut sorted: Vec<String> = Vec::new();
    let ghost all = slice::texts(v@).to_multiset();
    proof {
        broadcast use vstd::seq_lib::group_to_multiset_ensures;

        assert(slice::texts(sorted@) =~= Seq::<Seq<char>>::empty());
        assert(slice::texts(sorted@).to_multiset().add(slice::texts(rest@).to_multiset()) =~= all);
    }
    while rest.len() > 0
        invariant
            ascending(slice::texts(sorted@)),
            slice::texts(sorted@).to_multiset().add(slice::texts(rest@).to_multiset()) == all,
            sorted@.len() + rest@.len() == v@.len(),
        decreases rest@.len(),
    {
        let ghost before = slice::texts(rest@);
        let s = rest.pop().unwrap();
        proof {
            broadcast use vstd::seq_lib::group_to_multiset_ensures;

            assert(slice::texts(rest@) =~= before.drop_last());
            assert(before =~= slice::texts(rest@).push(s@));
        }
        let ghost text = s@;
        let ghost old_sorted = slice::texts(sorted@);
        insert(&mut sorted, s);
        proof {
            broadcast use vstd::seq_lib::group_to_multiset_ensures;

            assert(slice::texts(sorted@).to_multiset().add(slice::texts(rest@).to_multiset())
                =~= old_sorted.to_multiset().add(before.to_multiset()));
        }
    }
    proof {
        broadcast use vstd::seq_lib::group_to_multiset_ensures;

        assert(slice::texts(rest@) =~= Seq::<Seq<char>>::empty());
        assert(slice::texts(sorted@).to_multiset() =~= all);
    }
    sorted
}

/// Puts a text into its place among ascending ones.
fn insert(v: &mut Vec<String>, s: String)
    requires
        ascending(slice::texts(old(v)@)),
    ensures
        ascending(slice::texts(final(v)@)),
        slice::texts(final(v)@).to_multiset() == slice::texts(old(v)@).to_multiset().insert(s@),
        final(v)@.len() == old(v)@.len() + 1,
{
    let mut i: usize = 0;
    while i < v.len() && not_after(v[i].as_str(), s.as_str())
        invariant
            i <= v@.len(),
            v@ == old(v)@,
            forall|j: int| 0 <= j < i ==> lex_le(#[trigger] slice::texts(v@)[j], s@),
        decreases v@.len() - i,
    {
        i = i + 1;
    }
    let ghost before = slice::texts(v@);
    let ghost text = s@;
    proof {
        if i < v@.len() {
            lemma_lex_total(before[i as int], text);
        }
        assert forall|j: int| i <= j < before.len() implies lex_le(text, #[trigger] before[j]) by {
            assert(lex_le(before[i as int], before[j]));
            lemma_lex_transitive(text, before[i as int], before[j]);
        }
    }
    v.insert(i, s);
    proof {
        let after = slice::texts(v@);
        broadcast use vstd::seq_lib::group_to_multiset_ensures;

        assert(after =~= before.insert(i as int, text));
        assert(after.remove(i as int) =~= before);
        assert(after[i as int] == text);
        assert(after.contains(text));
        assert(after.to_multiset() =~= before.to_multiset().insert(text));
        assert forall|j: int, k: int| 0 <= j <= k < after.len() implies lex_le(
            #[trigger] after[j],
            #[trigger] after[k],
        ) by {
            lemma_lex_total(text, text);
            if j < i && k > i {
                assert(lex_le(before[j], before[k - 1]));
            }
        }
    }
}

/// Texts are in alphabetical order: the first character in which they differ decides,
/// and the beginning of a text comes before the text.
pub proof fn law_alphabetical_order(p: Seq<char>, a: char, b: char, x: Seq<char>, y: Seq<char>)
    ensures
        a != b ==> (lex_le(p + seq![a] + x, p + seq![b] + y) <==> a < b),
        lex_le(p, p + x),
        x.len() > 0 ==> !lex_le(p + x, p),
    decreases p.len(),
{
    let s = p + seq![a] + x;
    let t = p + seq![b] + y;
    if p.len() > 0 {
        let q = p.drop_first();
        law_alphabetical_order(q, a, b, x, y);
        assert(s[0] == p[0] && t[0] == p[0]);
        assert(s.drop_first() =~= q + seq![a] + x);
        assert(t.drop_first() =~= q + seq![b] + y);
        assert((p + x)[0] == p[0]);
        assert((p + x).drop_first() =~= q + x);
    } else {
        assert(s[0] == a && t[0] == b);
    }
}

} // verus!
