//! What holds of templates once their placeholders are replaced.

use vstd::prelude::*;

use super::inject;
use super::inject::VarsModel;
use crate::lists;
use crate::text::search;

verus! {

/// Whether a character is a brace.
pub open spec fn brace(c: char) -> bool {
    c == '{' || c == '}'
}

/// Whether a text holds no brace.
pub open spec fn brace_free(s: Seq<char>) -> bool {
    forall|i: int| 0 <= i < s.len() ==> !brace(#[trigger] s[i])
}

/// Whether a brace closes between two places.
pub open spec fn closes_between(s: Seq<char>, i: int, j: int) -> bool {
    exists|k: int| i < k < j && #[trigger] s[k] == '}'
}

/// Whether no brace opens inside another: between two that open, one closes.
pub open spec fn unnested(s: Seq<char>) -> bool {
    forall|i: int, j: int|
        0 <= i < j < s.len() && #[trigger] s[i] == '{' && #[trigger] s[j] == '{' ==> closes_between(
            s,
            i,
            j,
        )
}

/// Whether a text is a placeholder: a name in braces.
pub open spec fn is_placeholder(s: Seq<char>) -> bool {
    &&& s.len() >= 2
    &&& s[0] == '{'
    &&& s.last() == '}'
    &&& forall|i: int| 0 < i < s.len() - 1 ==> !brace(#[trigger] s[i])
}

/// Placeholders with what stands for them, which holds no brace.
pub open spec fn plain_pairs(pairs: Seq<(Seq<char>, Seq<char>)>) -> bool {
    forall|k: int|
        0 <= k < pairs.len() ==> is_placeholder((#[trigger] pairs[k]).0) && brace_free(pairs[k].1)
}

/// A text begins with the placeholder.
pub open spec fn heads(s: Seq<char>) -> spec_fn((Seq<char>, Seq<char>)) -> bool {
    |p: (Seq<char>, Seq<char>)| search::begins_with(s, p.0)
}

/// The placeholder with which a text begins.
pub open spec fn head(s: Seq<char>, pairs: Seq<(Seq<char>, Seq<char>)>) -> Option<int> {
    lists::first_where(pairs, heads(s))
}

/// A template with every placeholder replaced by what stands for it, all at
/// once from left to right. Everything else stays, names in braces that are no
/// placeholders too.
pub open spec fn filled(s: Seq<char>, pairs: Seq<(Seq<char>, Seq<char>)>) -> Seq<char>
    decreases s.len(),
{
    if s.len() == 0 {
        s
    } else {
        match head(s, pairs) {
            Some(k) => if 0 < pairs[k].0.len() <= s.len() {
                pairs[k].1 + filled(s.skip(pairs[k].0.len() as int), pairs)
            } else {
                s
            },
            None => seq![s[0]] + filled(s.drop_first(), pairs),
        }
    }
}

/// The placeholders of templates, with what stands for them.
pub open spec fn placeholders(v: VarsModel) -> Seq<(Seq<char>, Seq<char>)> {
    seq![
        ("{speaker_username}"@, v.speaker_username),
        ("{speaker_display}"@, v.speaker_display),
        ("{speaker_user_id}"@, v.speaker_user_id),
        ("{speaker_role}"@, v.speaker_role),
        ("{channel}"@, v.channel),
        ("{date}"@, v.date),
    ]
}

/// Whether nothing that stands for a placeholder holds a brace.
pub open spec fn values_plain(v: VarsModel) -> bool {
    &&& brace_free(v.speaker_username)
    &&& brace_free(v.speaker_display)
    &&& brace_free(v.speaker_user_id)
    &&& brace_free(v.speaker_role)
    &&& brace_free(v.channel)
    &&& brace_free(v.date)
}

/// What begins with a placeholder begins with a brace.
proof fn lemma_head_opens(s: Seq<char>, t: Seq<char>)
    requires
        is_placeholder(t),
        search::begins_with(s, t),
    ensures
        s.len() >= t.len(),
        s[0] == '{',
        forall|i: int| 0 <= i < t.len() ==> #[trigger] s[i] == t[i],
{
    assert forall|i: int| 0 <= i < t.len() implies #[trigger] s[i] == t[i] by {
        assert(s.subrange(0, t.len() as int)[i] == s[i]);
    }
}

/// What does not begin with a brace begins with no placeholder.
proof fn lemma_no_head(s: Seq<char>, pairs: Seq<(Seq<char>, Seq<char>)>)
    requires
        plain_pairs(pairs),
        s.len() == 0 || s[0] != '{',
    ensures
        head(s, pairs) is None,
{
    assert forall|j: int| 0 <= j < pairs.len() implies !heads(s)(#[trigger] pairs[j]) by {
        if search::begins_with(s, pairs[j].0) {
            lemma_head_opens(s, pairs[j].0);
        }
    }
    lists::lemma_first_none(pairs, heads(s));
}

/// What opens no brace stays in front of the rest.
proof fn lemma_filled_front(a: Seq<char>, b: Seq<char>, pairs: Seq<(Seq<char>, Seq<char>)>)
    requires
        plain_pairs(pairs),
        !a.contains('{'),
    ensures
        filled(a + b, pairs) == a + filled(b, pairs),
    decreases a.len(),
{
    if a.len() == 0 {
        assert(a + b =~= b);
        assert(a + filled(b, pairs) =~= filled(b, pairs));
    } else {
        let rest = a.drop_first();
        assert(a.contains(a[0]));
        assert forall|i: int| 0 <= i < rest.len() implies rest[i] != '{' by {
            assert(a.contains(a[i + 1]));
        }
        lemma_no_head(a + b, pairs);
        assert((a + b).drop_first() =~= rest + b);
        lemma_filled_front(rest, b, pairs);
        assert(seq![a[0]] + (rest + filled(b, pairs)) =~= a + filled(b, pairs));
    }
}

/// What opens no brace stays in front of the rest.
proof fn lemma_replaced_front(a: Seq<char>, b: Seq<char>, token: Seq<char>, by: Seq<char>)
    requires
        is_placeholder(token),
        !a.contains('{'),
    ensures
        search::replaced(a + b, token, by) == a + search::replaced(b, token, by),
    decreases a.len(),
{
    if a.len() == 0 {
        assert(a + b =~= b);
        assert(a + search::replaced(b, token, by) =~= search::replaced(b, token, by));
    } else {
        let rest = a.drop_first();
        assert(a.contains(a[0]));
        assert forall|i: int| 0 <= i < rest.len() implies rest[i] != '{' by {
            assert(a.contains(a[i + 1]));
        }
        if search::begins_with(a + b, token) {
            lemma_head_opens(a + b, token);
        }
        assert((a + b).drop_first() =~= rest + b);
        lemma_replaced_front(rest, b, token, by);
        assert(seq![a[0]] + (rest + search::replaced(b, token, by)) =~= a + search::replaced(
            b,
            token,
            by,
        ));
    }
}

/// The end of a template in which no brace opens inside another is one too.
proof fn lemma_unnested_skip(s: Seq<char>, n: int)
    requires
        unnested(s),
        0 <= n <= s.len(),
    ensures
        unnested(s.skip(n)),
{
    let t = s.skip(n);
    assert forall|i: int, j: int|
        0 <= i < j < t.len() && #[trigger] t[i] == '{' && #[trigger] t[j]
            == '{' implies closes_between(t, i, j) by {
        assert(s[i + n] == '{' && s[j + n] == '{');
        assert(closes_between(s, i + n, j + n));
        let k = choose|k: int| i + n < k < j + n && #[trigger] s[k] == '}';
        assert(t[k - n] == '}');
    }
}

/// A brace that opens no placeholder opens none either once the rest is filled
/// in.
proof fn lemma_head_stays(
    s: Seq<char>,
    pairs: Seq<(Seq<char>, Seq<char>)>,
    token: Seq<char>,
)
    requires
        plain_pairs(pairs),
        is_placeholder(token),
        unnested(s),
        s.len() > 0,
        s[0] == '{',
        !search::begins_with(s, token),
    ensures
        !search::begins_with(seq![s[0]] + filled(s.drop_first(), pairs), token),
{
    let rest = s.drop_first();
    let f = filled(rest, pairs);
    let whole = seq![s[0]] + f;
    let n = token.len() as int;
    if search::begins_with(whole, token) {
        lemma_head_opens(whole, token);
        let p = |c: char| brace(c);
        lists::lemma_first_where(rest, p);
        match lists::first_where(rest, p) {
            None => {
                assert forall|i: int| 0 <= i < rest.len() implies rest[i] != '{' by {
                    assert(!p(rest[i]));
                }
                let none = Seq::<char>::empty();
                assert(rest + none =~= rest);
                lemma_filled_front(rest, none, pairs);
                assert(whole =~= s);
            },
            Some(at) => {
                let a = rest.take(at + 1);
                let b = rest.skip(at + 1);
                assert(p(rest[at]));
                assert forall|i: int| 0 <= i < at implies !brace(#[trigger] rest[i]) by {
                    assert(!p(rest[i]));
                }
                if rest[at] == '{' {
                    assert(s[at + 1] == '{');
                    assert(closes_between(s, 0, at + 1));
                    let k = choose|k: int| 0 < k < at + 1 && #[trigger] s[k] == '}';
                    assert(!brace(rest[k - 1]));
                }
                assert forall|i: int| 0 <= i < a.len() implies a[i] != '{' by {
                    assert(a[i] == rest[i]);
                }
                assert(a + b =~= rest);
                lemma_filled_front(a, b, pairs);
                assert(forall|i: int| 0 <= i < a.len() ==> f[i] == a[i]);
                assert(f[at] == '}');
                assert(whole[at + 1] == '}');
                assert(whole[n - 1] == '}');
                if at + 1 < n - 1 {
                    assert(token[at + 1] == '}');
                    assert(!brace(token[at + 1]));
                } else if at + 1 > n - 1 {
                    assert(n >= 2);
                    assert(whole[n - 1] == f[n - 2]);
                    assert(!brace(rest[n - 2]));
                } else {
                    assert(s.subrange(0, n) =~= token) by {
                        assert forall|i: int| 0 <= i < n implies s[i] == token[i] by {
                            assert(whole[i] == token[i]);
                            if i > 0 {
                                assert(s[i] == rest[i - 1]);
                                assert(f[i - 1] == a[i - 1]);
                            }
                        }
                    }
                }
            },
        }
    }
}

/// Without placeholders a template stays as it is.
pub proof fn lemma_filled_none(s: Seq<char>)
    ensures
        filled(s, Seq::empty()) == s,
    decreases s.len(),
{
    if s.len() > 0 {
        let none = Seq::<(Seq<char>, Seq<char>)>::empty();
        lists::lemma_first_none(none, heads(s));
        lemma_filled_none(s.drop_first());
        assert(seq![s[0]] + s.drop_first() =~= s);
    }
}

/// Replacing one more placeholder in a template that is filled in already is
/// the same as filling them all in at once.
pub proof fn lemma_one_more(
    s: Seq<char>,
    pairs: Seq<(Seq<char>, Seq<char>)>,
    token: Seq<char>,
    by: Seq<char>,
)
    requires
        plain_pairs(pairs),
        is_placeholder(token),
        brace_free(by),
        unnested(s),
    ensures
        search::replaced(filled(s, pairs), token, by) == filled(s, pairs.push((token, by))),
    decreases s.len(),
{
    let more = pairs.push((token, by));
    if s.len() > 0 {
        lists::lemma_first_where(pairs, heads(s));
        match head(s, pairs) {
            Some(k) => {
                lemma_head_opens(s, pairs[k].0);
                let l = pairs[k].0.len() as int;
                assert(more[k] == pairs[k]);
                assert forall|j: int| 0 <= j < k implies !heads(s)(#[trigger] more[j]) by {
                    assert(more[j] == pairs[j]);
                }
                lists::lemma_first_at(more, heads(s), k);
                lemma_unnested_skip(s, l);
                lemma_one_more(s.skip(l), pairs, token, by);
                assert(!pairs[k].1.contains('{'));
                lemma_replaced_front(pairs[k].1, filled(s.skip(l), pairs), token, by);
            },
            None => {
                let rest = s.drop_first();
                let f = filled(rest, pairs);
                assert(rest =~= s.skip(1));
                if search::begins_with(s, token) {
                    let n = token.len() as int;
                    let tail = s.skip(n);
                    lemma_head_opens(s, token);
                    assert(more[pairs.len() as int] == (token, by));
                    assert forall|j: int| 0 <= j < pairs.len() implies !heads(s)(
                        #[trigger] more[j],
                    ) by {
                        assert(more[j] == pairs[j]);
                    }
                    lists::lemma_first_at(more, heads(s), pairs.len() as int);
                    let name = token.drop_first();
                    assert forall|i: int| 0 <= i < name.len() implies name[i] != '{' by {
                        assert(name[i] == token[i + 1]);
                    }
                    assert(rest =~= name + tail);
                    lemma_filled_front(name, tail, pairs);
                    let y = filled(tail, pairs);
                    let whole = filled(s, pairs);
                    assert(whole =~= token + y);
                    assert(whole.subrange(0, n) =~= token);
                    assert(whole.skip(n) =~= y);
                    lemma_unnested_skip(s, n);
                    lemma_one_more(tail, pairs, token, by);
                } else {
                    assert forall|j: int| 0 <= j < more.len() implies !heads(s)(
                        #[trigger] more[j],
                    ) by {
                        if j < pairs.len() {
                            assert(more[j] == pairs[j]);
                        }
                    }
                    lists::lemma_first_none(more, heads(s));
                    lemma_unnested_skip(s, 1);
                    lemma_one_more(rest, pairs, token, by);
                    let whole = filled(s, pairs);
                    assert(whole == seq![s[0]] + f);
                    if s[0] == '{' {
                        lemma_head_stays(s, pairs, token);
                    } else if search::begins_with(whole, token) {
                        lemma_head_opens(whole, token);
                    }
                    assert(whole.drop_first() =~= f);
                    assert(whole[0] == s[0]);
                    if whole.len() < token.len() {
                        assert(search::replaced(f, token, by) == f);
                    }
                }
            },
        }
    }
}

/// Once they are filled in, no placeholder is left.
proof fn lemma_none_left(s: Seq<char>, pairs: Seq<(Seq<char>, Seq<char>)>, k: int)
    requires
        plain_pairs(pairs),
        unnested(s),
        0 <= k < pairs.len(),
    ensures
        !search::contains(filled(s, pairs), pairs[k].0),
    decreases s.len(),
{
    let token = pairs[k].0;
    let out = filled(s, pairs);
    if s.len() == 0 {
        assert forall|i: int| !search::occurs_at(out, token, i) by {}
    } else {
        lists::lemma_first_where(pairs, heads(s));
        match head(s, pairs) {
            Some(h) => {
                lemma_head_opens(s, pairs[h].0);
                let l = pairs[h].0.len() as int;
                let by = pairs[h].1;
                let rest = filled(s.skip(l), pairs);
                lemma_unnested_skip(s, l);
                lemma_none_left(s.skip(l), pairs, k);
                assert(out.skip(by.len() as int) =~= rest);
                assert forall|i: int| !search::occurs_at(out, token, i) by {
                    if search::occurs_at(out, token, i) {
                        if i < by.len() {
                            assert(out.subrange(i, i + token.len())[0] == out[i]);
                            assert(!brace(by[i]));
                        } else {
                            search::lemma_occurs_skip(
                                out,
                                token,
                                by.len() as int,
                                i - by.len(),
                            );
                            assert(search::occurs_at(rest, token, i - by.len()));
                        }
                    }
                }
            },
            None => {
                let f = filled(s.drop_first(), pairs);
                assert(s.drop_first() =~= s.skip(1));
                lemma_unnested_skip(s, 1);
                lemma_none_left(s.drop_first(), pairs, k);
                assert(out.drop_first() =~= f);
                assert(!heads(s)(pairs[k]));
                assert forall|i: int| !search::occurs_at(out, token, i) by {
                    if search::occurs_at(out, token, i) {
                        if i == 0 {
                            lemma_head_opens(out, token);
                            lemma_head_stays(s, pairs, token);
                        } else {
                            search::lemma_occurs_shift(out, token, i - 1);
                            assert(search::occurs_at(f, token, i - 1));
                        }
                    }
                }
            },
        }
    }
}

/// A placeholder between texts without braces is replaced, and they stay.
pub proof fn lemma_filled_one(
    a: Seq<char>,
    b: Seq<char>,
    pairs: Seq<(Seq<char>, Seq<char>)>,
    k: int,
)
    requires
        plain_pairs(pairs),
        0 <= k < pairs.len(),
        forall|j: int| 0 <= j < k ==> (#[trigger] pairs[j]).0 != pairs[k].0,
        brace_free(a),
        brace_free(b),
    ensures
        filled(a + pairs[k].0 + b, pairs) == a + pairs[k].1 + b,
        unnested(a + pairs[k].0 + b),
{
    let token = pairs[k].0;
    let s = token + b;
    let n = token.len() as int;
    assert forall|j: int| 0 <= j < k implies !heads(s)(#[trigger] pairs[j]) by {
        let other = pairs[j].0;
        if search::begins_with(s, other) {
            lemma_head_opens(s, other);
            let m = other.len() as int;
            assert(other[m - 1] == '}' && s[m - 1] == '}');
            if m > n {
                assert(b[m - 1 - n] == '}');
                assert(!brace(b[m - 1 - n]));
            } else if m < n {
                assert(token[m - 1] == '}');
                assert(!brace(token[m - 1]));
            } else {
                assert(other =~= token);
            }
        }
    }
    assert(s.subrange(0, n) =~= token);
    assert(heads(s)(pairs[k]));
    lists::lemma_first_at(pairs, heads(s), k);
    assert(s.skip(n) =~= b);
    let none = Seq::<char>::empty();
    assert(b + none =~= b);
    lemma_filled_front(b, none, pairs);
    assert(filled(none, pairs) =~= none);
    lemma_filled_front(a, s, pairs);
    assert(a + token + b =~= a + s);
    assert(a + (pairs[k].1 + b) =~= a + pairs[k].1 + b);
    let whole = a + token + b;
    assert forall|i: int, j: int|
        0 <= i < j < whole.len() && #[trigger] whole[i] == '{' && #[trigger] whole[j]
            == '{' implies closes_between(whole, i, j) by {
        if i < a.len() {
            assert(!brace(a[i]));
        } else if i >= a.len() + n {
            assert(!brace(b[i - a.len() - n]));
        } else if j >= a.len() + n {
            assert(!brace(b[j - a.len() - n]));
        } else {
            assert(!brace(token[j - a.len()]));
        }
    }
}

/// The placeholders of templates are placeholders, and no two are one.
pub proof fn lemma_placeholders(v: VarsModel)
    requires
        values_plain(v),
    ensures
        plain_pairs(placeholders(v)),
        forall|j: int, k: int|
            0 <= j < k < placeholders(v).len() ==> (#[trigger] placeholders(v)[j]).0 != (
            #[trigger] placeholders(v)[k]).0,
{
    reveal_strlit("{speaker_username}");
    reveal_strlit("{speaker_display}");
    reveal_strlit("{speaker_user_id}");
    reveal_strlit("{speaker_role}");
    reveal_strlit("{channel}");
    reveal_strlit("{date}");
    assert("{speaker_username}"@.len() == 18);
    assert("{speaker_display}"@.len() == 17);
    assert("{speaker_user_id}"@.len() == 17);
    assert("{speaker_role}"@.len() == 14);
    assert("{channel}"@.len() == 9);
    assert("{date}"@.len() == 6);
    assert("{speaker_display}"@[9] != "{speaker_user_id}"@[9]);
}

/// Replacing the placeholders one after the other is the same as replacing them
/// all at once, where no brace opens inside another and nothing that stands for
/// a placeholder holds one.
pub proof fn law_placeholders_are_filled_in(template: Seq<char>, v: VarsModel)
    requires
        values_plain(v),
        unnested(template),
    ensures
        inject::substituted(template, v) == filled(template, placeholders(v)),
{
    let all = placeholders(v);
    lemma_placeholders(v);
    lemma_filled_none(template);
    assert(all.take(0) =~= Seq::<(Seq<char>, Seq<char>)>::empty());
    assert forall|n: int| 0 <= n < all.len() implies search::replaced(
        filled(template, #[trigger] all.take(n)),
        all[n].0,
        all[n].1,
    ) == filled(template, all.take(n + 1)) by {
        let some = all.take(n);
        assert forall|k: int| 0 <= k < some.len() implies is_placeholder((#[trigger] some[k]).0)
            && brace_free(some[k].1) by {
            assert(some[k] == all[k]);
        }
        assert(is_placeholder(all[n].0) && brace_free(all[n].1));
        lemma_one_more(template, some, all[n].0, all[n].1);
        assert(all.take(n + 1) =~= some.push(all[n]));
    }
    assert(filled(template, all.take(1)) == search::replaced(
        filled(template, all.take(0)),
        all[0].0,
        all[0].1,
    ));
    assert(filled(template, all.take(2)) == search::replaced(
        filled(template, all.take(1)),
        all[1].0,
        all[1].1,
    ));
    assert(filled(template, all.take(3)) == search::replaced(
        filled(template, all.take(2)),
        all[2].0,
        all[2].1,
    ));
    assert(filled(template, all.take(4)) == search::replaced(
        filled(template, all.take(3)),
        all[3].0,
        all[3].1,
    ));
    assert(filled(template, all.take(5)) == search::replaced(
        filled(template, all.take(4)),
        all[4].0,
        all[4].1,
    ));
    assert(filled(template, all.take(6)) == search::replaced(
        filled(template, all.take(5)),
        all[5].0,
        all[5].1,
    ));
    assert(all.take(6) =~= all);
}

/// No placeholder is left in a template once they are replaced, so that doing it
/// again changes nothing.
pub proof fn law_substitution_is_idempotent(template: Seq<char>, v: VarsModel)
    requires
        values_plain(v),
        unnested(template),
    ensures
        ({
            let r = inject::substituted(template, v);
            &&& !search::contains(r, "{speaker_username}"@)
            &&& !search::contains(r, "{speaker_display}"@)
            &&& !search::contains(r, "{speaker_user_id}"@)
            &&& !search::contains(r, "{speaker_role}"@)
            &&& !search::contains(r, "{channel}"@)
            &&& !search::contains(r, "{date}"@)
            &&& inject::substituted(r, v) == r
        }),
{
    let all = placeholders(v);
    let r = inject::substituted(template, v);
    lemma_placeholders(v);
    law_placeholders_are_filled_in(template, v);
    assert forall|k: int| 0 <= k < all.len() implies !search::contains(r, (#[trigger] all[k]).0)
        && search::replaced(r, all[k].0, all[k].1) == r by {
        lemma_none_left(template, all, k);
        search::lemma_replaced_absent(r, all[k].0, all[k].1);
    }
    assert(search::replaced(r, all[0].0, all[0].1) == r);
    assert(search::replaced(r, all[1].0, all[1].1) == r);
    assert(search::replaced(r, all[2].0, all[2].1) == r);
    assert(search::replaced(r, all[3].0, all[3].1) == r);
    assert(search::replaced(r, all[4].0, all[4].1) == r);
    assert(search::replaced(r, all[5].0, all[5].1) == r);
}

} // verus!
