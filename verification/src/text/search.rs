//! Searching, replacing and splitting.

use vstd::prelude::*;

use super::slice;

verus! {

/// Whether `needle` stands in `hay` at `i`.
pub open spec fn occurs_at(hay: Seq<char>, needle: Seq<char>, i: int) -> bool {
    0 <= i && i + needle.len() <= hay.len() && hay.subrange(i, i + needle.len()) == needle
}

/// Whether `needle` stands anywhere in `hay`.
pub open spec fn contains(hay: Seq<char>, needle: Seq<char>) -> bool {
    exists|i: int| occurs_at(hay, needle, i)
}

/// The first place at which `needle` stands in `hay`.
pub open spec fn index_of(hay: Seq<char>, needle: Seq<char>) -> Option<int>
    decreases hay.len(),
{
    if hay.len() < needle.len() {
        None
    } else if begins_with(hay, needle) {
        Some(0)
    } else if hay.len() == 0 {
        None
    } else {
        match index_of(hay.drop_first(), needle) {
            Some(i) => Some(i + 1),
            None => None,
        }
    }
}

/// Whether `hay` begins with `needle`.
pub open spec fn begins_with(hay: Seq<char>, needle: Seq<char>) -> bool {
    occurs_at(hay, needle, 0)
}

/// Whether `hay` ends with `needle`.
pub open spec fn finishes_with(hay: Seq<char>, needle: Seq<char>) -> bool {
    occurs_at(hay, needle, hay.len() - needle.len())
}

/// `hay` with each occurrence of `needle` replaced by `by`, from left to right
/// and without overlaps. An empty needle replaces nothing.
pub open spec fn replaced(hay: Seq<char>, needle: Seq<char>, by: Seq<char>) -> Seq<char>
    decreases hay.len(),
{
    if needle.len() == 0 || hay.len() < needle.len() {
        hay
    } else if begins_with(hay, needle) {
        by + replaced(hay.skip(needle.len() as int), needle, by)
    } else {
        seq![hay[0]] + replaced(hay.drop_first(), needle, by)
    }
}

/// The pieces of `hay` between the occurrences of `sep`, taken from left to
/// right and without overlaps. There is one piece more than separators.
pub open spec fn pieces(hay: Seq<char>, sep: Seq<char>) -> Seq<Seq<char>>
    decreases hay.len(),
{
    if sep.len() == 0 || hay.len() < sep.len() {
        seq![hay]
    } else if begins_with(hay, sep) {
        seq![Seq::<char>::empty()] + pieces(hay.skip(sep.len() as int), sep)
    } else {
        with_head(seq![hay[0]], pieces(hay.drop_first(), sep))
    }
}

/// The list with `head` put in front of its first item.
pub open spec fn with_head(head: Seq<char>, list: Seq<Seq<char>>) -> Seq<Seq<char>> {
    if list.len() == 0 {
        seq![head]
    } else {
        list.update(0, head + list[0])
    }
}

/// There is always at least one piece.
pub proof fn lemma_pieces_nonempty(hay: Seq<char>, sep: Seq<char>)
    ensures
        pieces(hay, sep).len() > 0,
    decreases hay.len(),
{
    if sep.len() == 0 || hay.len() < sep.len() {
    } else if begins_with(hay, sep) {
    } else {
        lemma_pieces_nonempty(hay.drop_first(), sep);
    }
}

/// Where nothing is to be replaced, everything stays as it is.
pub proof fn lemma_replaced_absent(hay: Seq<char>, needle: Seq<char>, by: Seq<char>)
    requires
        !contains(hay, needle),
    ensures
        replaced(hay, needle, by) == hay,
    decreases hay.len(),
{
    if needle.len() == 0 || hay.len() < needle.len() {
    } else {
        assert(!occurs_at(hay, needle, 0));
        let rest = hay.drop_first();
        assert forall|i: int| !occurs_at(rest, needle, i) by {
            if occurs_at(rest, needle, i) {
                assert(rest.subrange(i, i + needle.len()) =~= hay.subrange(
                    i + 1,
                    i + 1 + needle.len(),
                ));
                assert(occurs_at(hay, needle, i + 1));
            }
        }
        lemma_replaced_absent(rest, needle, by);
        assert(seq![hay[0]] + rest =~= hay);
    }
}

/// Dropping the first character moves every occurrence by one.
pub proof fn lemma_occurs_shift(hay: Seq<char>, needle: Seq<char>, i: int)
    requires
        hay.len() > 0,
        i >= 0,
    ensures
        occurs_at(hay.drop_first(), needle, i) == occurs_at(hay, needle, i + 1),
{
    if i + 1 + needle.len() <= hay.len() {
        assert(hay.drop_first().subrange(i, i + needle.len()) =~= hay.subrange(
            i + 1,
            i + 1 + needle.len(),
        ));
    }
}

/// `index_of` finds the least place of an occurrence.
pub proof fn lemma_index_of(hay: Seq<char>, needle: Seq<char>)
    ensures
        match index_of(hay, needle) {
            Some(i) => occurs_at(hay, needle, i) && forall|j: int|
                0 <= j < i ==> !occurs_at(hay, needle, j),
            None => forall|j: int| !occurs_at(hay, needle, j),
        },
    decreases hay.len(),
{
    if hay.len() < needle.len() {
    } else if begins_with(hay, needle) {
    } else if hay.len() == 0 {
    } else {
        lemma_index_of(hay.drop_first(), needle);
        assert forall|j: int| 0 < j implies occurs_at(hay, needle, j) == occurs_at(
            hay.drop_first(),
            needle,
            j - 1,
        ) by {
            lemma_occurs_shift(hay, needle, j - 1);
        }
    }
}

/// Whether `needle` stands in `hay` at `i`.
pub fn stands_at(hay: &Vec<char>, needle: &Vec<char>, i: usize) -> (b: bool)
    requires
        i <= hay@.len(),
    ensures
        b == occurs_at(hay@, needle@, i as int),
{
    if needle.len() > hay.len() - i {
        return false;
    }
    let mut k: usize = 0;
    while k < needle.len()
        invariant
            k <= needle@.len(),
            i + needle@.len() <= hay.len(),
            forall|j: int| 0 <= j < k ==> hay@[i + j] == needle@[j],
        decreases needle@.len() - k,
    {
        if hay[i + k] != needle[k] {
            assert(hay@.subrange(i as int, i + needle@.len())[k as int] != needle@[k as int]);
            return false;
        }
        k = k + 1;
    }
    assert(hay@.subrange(i as int, i + needle@.len()) =~= needle@);
    true
}

/// Occurrences in the rest of a text are occurrences in the text.
pub proof fn lemma_occurs_skip(hay: Seq<char>, needle: Seq<char>, from: int, i: int)
    requires
        0 <= from <= hay.len(),
        i >= 0,
    ensures
        occurs_at(hay.skip(from), needle, i) == occurs_at(hay, needle, from + i),
{
    if from + i + needle.len() <= hay.len() {
        assert(hay.skip(from).subrange(i, i + needle.len()) =~= hay.subrange(
            from + i,
            from + i + needle.len(),
        ));
    }
}

/// A text with something around it holds it.
pub proof fn lemma_holds(a: Seq<char>, b: Seq<char>, c: Seq<char>)
    ensures
        contains(a + b + c, b),
{
    let n = a.len() as int;
    assert((a + b + c).subrange(n, n + b.len()) =~= b);
    assert(occurs_at(a + b + c, b, n));
}

/// What a part of a text holds, the text holds.
pub proof fn lemma_holds_more(a: Seq<char>, b: Seq<char>, c: Seq<char>, needle: Seq<char>)
    requires
        contains(b, needle),
    ensures
        contains(a + b + c, needle),
{
    let i = choose|i: int| occurs_at(b, needle, i);
    let at = a.len() + i;
    assert((a + b + c).subrange(at, at + needle.len()) =~= b.subrange(i, i + needle.len()));
    assert(occurs_at(a + b + c, needle, at));
}

/// What is before the first separator is the first piece, and what follows it is
/// split further.
pub proof fn lemma_pieces_front(a: Seq<char>, sep: char, rest: Seq<char>)
    requires
        !a.contains(sep),
    ensures
        pieces(a, seq![sep]) == seq![a],
        pieces(a + seq![sep] + rest, seq![sep]) == seq![a] + pieces(rest, seq![sep]),
    decreases a.len(),
{
    let s = seq![sep];
    let hay = a + s + rest;
    if a.len() == 0 {
        assert(hay.subrange(0, 1) =~= s);
        assert(hay.skip(1) =~= rest);
        assert(pieces(a, s) =~= seq![a]);
        assert(a =~= Seq::<char>::empty());
    } else {
        let more = a.drop_first();
        assert(a.contains(a[0]));
        assert forall|i: int| 0 <= i < more.len() implies more[i] != sep by {
            assert(a.contains(a[i + 1]));
        }
        lemma_pieces_front(more, sep, rest);
        if begins_with(a, s) {
            assert(a.subrange(0, 1)[0] == sep);
        }
        if begins_with(hay, s) {
            assert(hay.subrange(0, 1)[0] == sep);
        }
        assert(hay.drop_first() =~= more + s + rest);
        assert(seq![a[0]] + more =~= a);
        assert(pieces(a, s) =~= seq![a]);
        let tail = pieces(rest, s);
        assert(with_head(seq![a[0]], seq![more] + tail) =~= seq![a] + tail);
    }
}

/// Joined parts are split into the same parts again, where none holds the
/// separator.
pub proof fn lemma_pieces_of_joined(parts: Seq<Seq<char>>, sep: char)
    requires
        parts.len() > 0,
        forall|i: int| 0 <= i < parts.len() ==> !(#[trigger] parts[i]).contains(sep),
    ensures
        pieces(slice::joined(parts, seq![sep]), seq![sep]) == parts,
    decreases parts.len(),
{
    let s = seq![sep];
    if parts.len() == 1 {
        lemma_pieces_front(parts[0], sep, Seq::empty());
        assert(parts =~= seq![parts[0]]);
    } else {
        lemma_joined_front(parts, s);
        let rest = parts.drop_first();
        assert forall|i: int| 0 <= i < rest.len() implies !(#[trigger] rest[i]).contains(sep) by {
            assert(rest[i] == parts[i + 1]);
        }
        lemma_pieces_of_joined(rest, sep);
        lemma_pieces_front(parts[0], sep, slice::joined(rest, s));
        assert(seq![parts[0]] + rest =~= parts);
    }
}

/// Joined parts are the first one, a separator and the others joined.
pub proof fn lemma_joined_front(parts: Seq<Seq<char>>, sep: Seq<char>)
    requires
        parts.len() > 1,
    ensures
        slice::joined(parts, sep) == parts[0] + sep + slice::joined(parts.drop_first(), sep),
    decreases parts.len(),
{
    let rest = parts.drop_first();
    if parts.len() == 2 {
        assert(parts.drop_last() =~= seq![parts[0]]);
        assert(rest =~= seq![parts[1]]);
        assert(slice::joined(parts.drop_last(), sep) == parts[0]);
        assert(slice::joined(rest, sep) == parts[1]);
    } else {
        let front = parts.drop_last();
        lemma_joined_front(front, sep);
        assert(front.drop_first() =~= rest.drop_last());
        assert(slice::joined(parts, sep) =~= parts[0] + sep + slice::joined(rest, sep));
    }
}

/// The least place of an occurrence is the one that `index_of` finds.
pub proof fn lemma_index_unique(hay: Seq<char>, needle: Seq<char>, i: int)
    requires
        occurs_at(hay, needle, i),
        forall|j: int| 0 <= j < i ==> !occurs_at(hay, needle, j),
    ensures
        index_of(hay, needle) == Some(i),
{
    lemma_index_of(hay, needle);
}

/// The least place at or after `from` is the one that `index_of` finds in the
/// rest of the text.
proof fn lemma_first_after(hay: Seq<char>, needle: Seq<char>, from: int, i: int)
    requires
        0 <= from <= i <= hay.len(),
        occurs_at(hay, needle, i),
        forall|j: int| from <= j < i ==> !occurs_at(hay, needle, j),
    ensures
        index_of(hay.skip(from), needle) == Some(i - from),
{
    let rest = hay.skip(from);
    lemma_occurs_skip(hay, needle, from, i - from);
    assert forall|j: int| 0 <= j < i - from implies !occurs_at(rest, needle, j) by {
        lemma_occurs_skip(hay, needle, from, j);
    }
    lemma_index_unique(rest, needle, i - from);
}

/// The first place at or after `from` at which `needle` stands.
pub fn find_from(hay: &Vec<char>, needle: &Vec<char>, from: usize) -> (r: Option<usize>)
    requires
        from <= hay@.len(),
    ensures
        match r {
            Some(i) => from <= i && occurs_at(hay@, needle@, i as int) && forall|j: int|
                from <= j < i ==> !occurs_at(hay@, needle@, j),
            None => forall|j: int| from <= j ==> !occurs_at(hay@, needle@, j),
        },
        index_of(hay@.skip(from as int), needle@) == match r {
            Some(i) => Some(i - from),
            None => None,
        },
{
    let mut i: usize = from;
    while i < hay.len()
        invariant
            from <= i <= hay@.len(),
            forall|j: int| from <= j < i ==> !occurs_at(hay@, needle@, j),
        decreases hay@.len() - i,
    {
        if stands_at(hay, needle, i) {
            proof {
                lemma_first_after(hay@, needle@, from as int, i as int);
            }
            return Some(i);
        }
        i = i + 1;
    }
    if stands_at(hay, needle, i) {
        proof {
            lemma_first_after(hay@, needle@, from as int, i as int);
        }
        Some(i)
    } else {
        proof {
            let rest = hay@.skip(from as int);
            lemma_index_of(rest, needle@);
            assert forall|j: int| 0 <= j implies !occurs_at(rest, needle@, j) by {
                lemma_occurs_skip(hay@, needle@, from as int, j);
            }
        }
        None
    }
}

/// Whether `needle` stands anywhere in `hay`.
pub fn has(hay: &str, needle: &str) -> (b: bool)
    ensures
        b == contains(hay@, needle@),
{
    let h = slice::chars_of(hay);
    let n = slice::chars_of(needle);
    match find_from(&h, &n, 0) {
        Some(i) => {
            assert(occurs_at(hay@, needle@, i as int));
            true
        },
        None => false,
    }
}

/// Whether `hay` begins with `needle`.
pub fn starts(hay: &str, needle: &str) -> (b: bool)
    ensures
        b == begins_with(hay@, needle@),
{
    stands_at(&slice::chars_of(hay), &slice::chars_of(needle), 0)
}

/// What follows `prefix` in `s`, where `s` begins with it.
pub fn after_prefix(s: &str, prefix: &str) -> (r: Option<String>)
    ensures
        slice::opt_text(r) == if begins_with(s@, prefix@) {
            Some(s@.skip(prefix@.len() as int))
        } else {
            None
        },
{
    let v = slice::chars_of(s);
    let p = slice::chars_of(prefix);
    if stands_at(&v, &p, 0) {
        let r = slice::text_between(&v, p.len(), v.len());
        assert(v@.subrange(p@.len() as int, v@.len() as int) =~= v@.skip(p@.len() as int));
        Some(r)
    } else {
        None
    }
}

/// What precedes `suffix` in `s`, where `s` ends with it.
pub fn before_suffix(s: &str, suffix: &str) -> (r: Option<String>)
    ensures
        slice::opt_text(r) == if finishes_with(s@, suffix@) {
            Some(s@.take(s@.len() - suffix@.len()))
        } else {
            None
        },
{
    let v = slice::chars_of(s);
    let p = slice::chars_of(suffix);
    if p.len() <= v.len() && stands_at(&v, &p, v.len() - p.len()) {
        let r = slice::text_between(&v, 0, v.len() - p.len());
        assert(v@.subrange(0, v@.len() - p@.len()) =~= v@.take(v@.len() - p@.len()));
        Some(r)
    } else {
        None
    }
}

/// `hay` with each occurrence of `needle` replaced by `by`.
pub fn replace_all(hay: &str, needle: &str, by: &str) -> (r: String)
    requires
        needle@.len() > 0,
    ensures
        r@ == replaced(hay@, needle@, by@),
{
    let h = slice::chars_of(hay);
    let n = slice::chars_of(needle);
    let b = slice::chars_of(by);
    let mut out: Vec<char> = Vec::new();
    let mut i: usize = 0;
    assert(h@.skip(0) =~= h@);
    assert(out@ + replaced(h@, n@, b@) =~= replaced(h@, n@, b@));
    while i < h.len()
        invariant
            i <= h@.len(),
            n@.len() > 0,
            out@ + replaced(h@.skip(i as int), n@, b@) == replaced(h@, n@, b@),
        decreases h@.len() - i,
    {
        let ghost rest = h@.skip(i as int);
        let ghost before = out@;
        if stands_at(&h, &n, i) {
            assert(h@.subrange(i as int, i + n@.len()) =~= rest.subrange(0, n@.len() as int));
            push_chars(&mut out, &b);
            i = i + n.len();
            assert(rest.skip(n@.len() as int) =~= h@.skip(i as int));
            assert(before + (b@ + replaced(h@.skip(i as int), n@, b@)) =~= out@ + replaced(
                h@.skip(i as int),
                n@,
                b@,
            ));
        } else {
            assert(occurs_at(rest, n@, 0) ==> h@.subrange(i as int, i + n@.len()) =~= rest.subrange(
                0,
                n@.len() as int,
            ));
            out.push(h[i]);
            assert(rest.drop_first() =~= h@.skip(i + 1));
            proof {
                if rest.len() < n@.len() {
                    assert(before + rest =~= out@ + h@.skip(i + 1));
                    assert(replaced(h@.skip(i + 1), n@, b@) == h@.skip(i + 1));
                } else {
                    assert(before + (seq![rest[0]] + replaced(h@.skip(i + 1), n@, b@)) =~= out@
                        + replaced(h@.skip(i + 1), n@, b@));
                }
            }
            i = i + 1;
        }
    }
    assert(h@.skip(i as int) =~= Seq::<char>::empty());
    assert(replaced(h@.skip(i as int), n@, b@) =~= Seq::<char>::empty());
    assert(out@ =~= replaced(h@, n@, b@));
    slice::text_of(&out)
}

/// Appends `more` to `v`.
pub fn push_chars(v: &mut Vec<char>, more: &Vec<char>)
    ensures
        final(v)@ == old(v)@ + more@,
{
    let mut i: usize = 0;
    assert(v@ =~= old(v)@ + more@.take(0));
    while i < more.len()
        invariant
            i <= more@.len(),
            v@ == old(v)@ + more@.take(i as int),
        decreases more@.len() - i,
    {
        v.push(more[i]);
        assert(more@.take(i + 1) =~= more@.take(i as int).push(more@[i as int]));
        i = i + 1;
    }
    assert(more@.take(i as int) =~= more@);
}

/// The pieces of `hay` between the occurrences of `sep`.
pub fn split(hay: &str, sep: &str) -> (r: Vec<String>)
    requires
        sep@.len() > 0,
    ensures
        slice::texts(r@) == pieces(hay@, sep@),
{
    let h = slice::chars_of(hay);
    let n = slice::chars_of(sep);
    let mut out: Vec<String> = Vec::new();
    let mut start: usize = 0;
    let mut i: usize = 0;
    proof {
        lemma_pieces_nonempty(h@, n@);
        assert(h@.skip(0) =~= h@);
        assert(h@.subrange(0, 0) =~= Seq::<char>::empty());
        let p = pieces(h@, n@);
        assert(Seq::<char>::empty() + p[0] =~= p[0]);
        assert(slice::texts(out@) + with_head(Seq::empty(), p) =~= p);
    }
    while i < h.len()
        invariant
            start <= i <= h@.len(),
            n@.len() > 0,
            slice::texts(out@) + with_head(
                h@.subrange(start as int, i as int),
                pieces(h@.skip(i as int), n@),
            ) == pieces(h@, n@),
        decreases h@.len() - i,
    {
        let ghost rest = h@.skip(i as int);
        let ghost cur = h@.subrange(start as int, i as int);
        let ghost done = slice::texts(out@);
        if stands_at(&h, &n, i) {
            assert(h@.subrange(i as int, i + n@.len()) =~= rest.subrange(0, n@.len() as int));
            out.push(slice::text_between(&h, start, i));
            i = i + n.len();
            start = i;
            proof {
                let tail = pieces(h@.skip(i as int), n@);
                lemma_pieces_nonempty(h@.skip(i as int), n@);
                assert(rest.skip(n@.len() as int) =~= h@.skip(i as int));
                assert(slice::texts(out@) =~= done.push(cur));
                assert(h@.subrange(i as int, i as int) =~= Seq::<char>::empty());
                assert(Seq::<char>::empty() + tail[0] =~= tail[0]);
                assert(with_head(Seq::empty(), tail) =~= tail);
                assert(cur + Seq::<char>::empty() =~= cur);
                assert(with_head(cur, seq![Seq::<char>::empty()] + tail) =~= seq![cur] + tail);
                assert(done.push(cur) + tail =~= done + (seq![cur] + tail));
            }
        } else {
            proof {
                assert(occurs_at(rest, n@, 0) ==> h@.subrange(i as int, i + n@.len())
                    =~= rest.subrange(0, n@.len() as int));
                assert(rest.drop_first() =~= h@.skip(i + 1));
                assert(h@.subrange(start as int, i + 1) =~= cur.push(rest[0]));
                if rest.len() < n@.len() {
                    assert(pieces(h@.skip(i + 1), n@) =~= seq![h@.skip(i + 1)]);
                    assert(cur + rest =~= cur.push(rest[0]) + h@.skip(i + 1));
                    assert(with_head(cur, seq![rest]) =~= with_head(
                        cur.push(rest[0]),
                        seq![h@.skip(i + 1)],
                    ));
                } else {
                    let tail = pieces(h@.skip(i + 1), n@);
                    lemma_pieces_nonempty(h@.skip(i + 1), n@);
                    assert(cur + (seq![rest[0]] + tail[0]) =~= cur.push(rest[0]) + tail[0]);
                    assert(with_head(cur, with_head(seq![rest[0]], tail)) =~= with_head(
                        cur.push(rest[0]),
                        tail,
                    ));
                }
            }
            i = i + 1;
        }
    }
    out.push(slice::text_between(&h, start, i));
    proof {
        let cur = h@.subrange(start as int, i as int);
        assert(h@.skip(i as int) =~= Seq::<char>::empty());
        assert(cur + Seq::<char>::empty() =~= cur);
        assert(with_head(cur, seq![Seq::<char>::empty()]) =~= seq![cur]);
        assert(pieces(Seq::<char>::empty(), n@) =~= seq![Seq::<char>::empty()]);
        assert(slice::texts(out@) =~= pieces(h@, n@));
    }
    out
}

} // verus!
