//! What the debug journal never records.

use vstd::prelude::*;

use super::debug_journal;
use super::debug_journal::EventModel;
use crate::json;
use crate::json::JsonModel;
use crate::lists;
use crate::text::{chars, search};

verus! {

/// Whatever stands behind the parameter is masked, in any case of its name.
pub open spec fn masked(v: Seq<char>, needle: Seq<char>) -> bool {
    forall|i: int| #[trigger]
        search::occurs_at(chars::ascii_lowered(v), needle, i) ==> search::occurs_at(
            v,
            "<redacted>"@,
            i + needle.len(),
        )
}

/// A name of a parameter that cannot run into a mask.
pub open spec fn plain_key(key: Seq<char>) -> bool {
    key.len() > 0 && forall|i: int|
        0 <= i < key.len() ==> (#[trigger] key[i]) != '=' && key[i] != '>'
}

/// The end of a masked text is masked.
proof fn lemma_masked_skip(v: Seq<char>, needle: Seq<char>, n: int)
    requires
        masked(v, needle),
        0 <= n <= v.len(),
    ensures
        masked(v.skip(n), needle),
{
    let w = v.skip(n);
    assert forall|i: int| #[trigger]
        search::occurs_at(chars::ascii_lowered(w), needle, i) implies search::occurs_at(
        w,
        "<redacted>"@,
        i + needle.len(),
    ) by {
        let lw = chars::ascii_lowered(w);
        let lv = chars::ascii_lowered(v);
        assert(lw =~= lv.skip(n));
        assert(lv.subrange(i + n, i + n + needle.len()) =~= lw.subrange(i, i + needle.len()));
        assert(search::occurs_at(lv, needle, i + n));
        let at = i + n + needle.len();
        let mask = "<redacted>"@;
        assert(search::occurs_at(v, mask, at));
        assert(w.subrange(i + needle.len(), i + needle.len() + mask.len()) =~= v.subrange(
            at,
            at + mask.len(),
        ));
    }
}

/// Masking one parameter masks it, and leaves another one masked.
proof fn lemma_redacted_masks(v: Seq<char>, key: Seq<char>, other: Seq<char>)
    requires
        plain_key(key),
        plain_key(other),
        key == other || masked(v, debug_journal::parameter(other)),
    ensures
        masked(
            debug_journal::redacted(v, debug_journal::parameter(key)),
            debug_journal::parameter(other),
        ),
    decreases v.len(),
{
    reveal_strlit("<redacted>");
    let needle = debug_journal::parameter(key);
    let watched = debug_journal::parameter(other);
    let mask = "<redacted>"@;
    let lv = chars::ascii_lowered(v);
    search::lemma_index_of(lv, needle);
    match search::index_of(lv, needle) {
        None => {},
        Some(first) => {
            let end = first + needle.len();
            let rest = v.skip(end);
            search::lemma_index_of(rest, seq!['&']);
            let tail = match search::index_of(rest, seq!['&']) {
                Some(amp) => rest.skip(amp),
                None => Seq::empty(),
            };
            let kept = match search::index_of(rest, seq!['&']) {
                Some(amp) => debug_journal::redacted(tail, needle),
                None => Seq::empty(),
            };
            let out = v.take(end) + mask + kept;
            assert(out =~= debug_journal::redacted(v, needle));
            assert(lv.subrange(first, end)[needle.len() - 1] == '=');
            assert(lv[end - 1] == '=');
            assert(v[end - 1] == '=');
            if search::index_of(rest, seq!['&']) is Some {
                let amp = search::index_of(rest, seq!['&'])->0;
                assert(tail =~= v.skip(end + amp));
                if key != other {
                    lemma_masked_skip(v, watched, end + amp);
                }
                lemma_redacted_masks(tail, key, other);
            }
            let lo = chars::ascii_lowered(out);
            let n = watched.len();
            assert forall|i: int| #[trigger]
                search::occurs_at(lo, watched, i) implies search::occurs_at(out, mask, i + n) by {
                assert(forall|k: int|
                    0 <= k < n ==> lo.subrange(i, i + n)[k] == #[trigger] watched[k]);
                assert forall|k: int| 0 <= k < n implies lo[i + k] == #[trigger] watched[k] by {
                    assert(lo.subrange(i, i + n)[k] == lo[i + k]);
                }
                if i + n <= end {
                    assert(lv.subrange(i, i + n) =~= watched);
                    assert(search::occurs_at(lv, watched, i));
                    if i + n == end {
                        assert(out.subrange(i + n, i + n + mask.len()) =~= mask);
                    } else if key == other {
                        assert(i < first);
                        assert(false);
                    } else {
                        assert(search::occurs_at(v, mask, i + n));
                        if i + n + mask.len() <= end {
                            assert(out.subrange(i + n, i + n + mask.len()) =~= v.subrange(
                                i + n,
                                i + n + mask.len(),
                            ));
                        } else {
                            let at = end - 1 - (i + n);
                            assert(v.subrange(i + n, i + n + mask.len())[at] == mask[at]);
                            assert(v[end - 1] == mask[at]);
                            assert(false);
                        }
                    }
                } else if i < end {
                    let at = end - 1 - i;
                    assert(lo[end - 1] == '=');
                    assert(watched[at] == '=');
                    assert(watched[at] == other[at]);
                    assert(false);
                } else if i < end + mask.len() {
                    let close = end + mask.len() - 1;
                    assert(out[close] == '>');
                    assert(lo[close] == '>');
                    if i + n <= end + mask.len() {
                        let last = i + n - 1;
                        assert(watched[n - 1] == '=');
                        assert(out[last] == mask[last - end]);
                        assert(lo[last] == chars::lower_char(mask[last - end]));
                        assert(false);
                    } else {
                        assert(watched[close - i] == '>');
                        assert(watched[close - i] == other[close - i]);
                        assert(false);
                    }
                } else {
                    let from = end + mask.len();
                    let lk = chars::ascii_lowered(kept);
                    assert(lk =~= lo.skip(from));
                    assert(lk.subrange(i - from, i - from + n) =~= lo.subrange(i, i + n));
                    assert(search::occurs_at(lk, watched, i - from));
                    assert(search::occurs_at(kept, mask, i - from + n));
                    assert(out.subrange(i + n, i + n + mask.len()) =~= kept.subrange(
                        i - from + n,
                        i - from + n + mask.len(),
                    ));
                }
            }
        },
    }
}

/// A sanitized text masks what stands behind each parameter that carries
/// credentials.
pub open spec fn credentials_masked(v: Seq<char>) -> bool {
    &&& masked(v, debug_journal::parameter("access_key"@))
    &&& masked(v, debug_journal::parameter("api_key"@))
    &&& masked(v, debug_journal::parameter("token"@))
    &&& masked(v, debug_journal::parameter("authorization"@))
}

/// No text gets through the sanitizer with the value of a parameter that
/// carries credentials.
pub proof fn law_credentials_are_masked(v: Seq<char>)
    ensures
        credentials_masked(debug_journal::sanitized_text(v)),
{
    reveal_strlit("access_key");
    reveal_strlit("api_key");
    reveal_strlit("token");
    reveal_strlit("authorization");
    let (a, b, c, d) = ("access_key"@, "api_key"@, "token"@, "authorization"@);
    let v1 = debug_journal::redacted(v, debug_journal::parameter(a));
    let v2 = debug_journal::redacted(v1, debug_journal::parameter(b));
    let v3 = debug_journal::redacted(v2, debug_journal::parameter(c));
    lemma_redacted_masks(v, a, a);
    lemma_redacted_masks(v1, b, b);
    lemma_redacted_masks(v1, b, a);
    lemma_redacted_masks(v2, c, c);
    lemma_redacted_masks(v2, c, a);
    lemma_redacted_masks(v2, c, b);
    lemma_redacted_masks(v3, d, d);
    lemma_redacted_masks(v3, d, a);
    lemma_redacted_masks(v3, d, b);
    lemma_redacted_masks(v3, d, c);
}

/// A value holds no sensitive member and no credentials in its texts, at any
/// depth.
pub open spec fn clean(j: JsonModel) -> bool
    decreases j,
{
    match j {
        JsonModel::Object(members) => clean_members(members),
        JsonModel::List(items) => clean_items(items),
        JsonModel::Text(s) => credentials_masked(s),
        _ => true,
    }
}

pub open spec fn clean_items(items: Seq<JsonModel>) -> bool
    decreases items,
{
    items.len() == 0 || (clean_items(items.drop_last()) && clean(items.last()))
}

pub open spec fn clean_members(members: Seq<(Seq<char>, JsonModel)>) -> bool
    decreases members,
{
    members.len() == 0 || (clean_members(members.drop_last()) && !debug_journal::sensitive(
        members.last().0,
    ) && clean(members.last().1))
}

/// No value gets through the sanitizer with a sensitive member or with
/// credentials in a text.
pub proof fn law_sanitized_values_are_clean(j: JsonModel)
    ensures
        clean(debug_journal::sanitized(j)),
    decreases j,
{
    match j {
        JsonModel::Object(members) => law_sanitized_members_are_clean(members),
        JsonModel::List(items) => law_sanitized_items_are_clean(items),
        JsonModel::Text(s) => law_credentials_are_masked(s),
        _ => {},
    }
}

/// No list gets through the sanitizer with an item that is not clean.
pub proof fn law_sanitized_items_are_clean(items: Seq<JsonModel>)
    ensures
        clean_items(debug_journal::sanitized_items(items)),
    decreases items,
{
    if items.len() > 0 {
        law_sanitized_items_are_clean(items.drop_last());
        law_sanitized_values_are_clean(items.last());
        let rest = debug_journal::sanitized_items(items.drop_last());
        assert(rest.push(debug_journal::sanitized(items.last())).drop_last() =~= rest);
    }
}

/// No object gets through the sanitizer with a sensitive member.
pub proof fn law_sanitized_members_are_clean(members: Seq<(Seq<char>, JsonModel)>)
    ensures
        clean_members(debug_journal::sanitized_members(members)),
    decreases members,
{
    if members.len() > 0 {
        law_sanitized_members_are_clean(members.drop_last());
        law_sanitized_values_are_clean(members.last().1);
        let rest = debug_journal::sanitized_members(members.drop_last());
        let item = (members.last().0, debug_journal::sanitized(members.last().1));
        assert(rest.push(item).drop_last() =~= rest);
    }
}

/// The members of an entry are clean, however many are added to it.
pub proof fn law_entries_are_clean(e: EventModel, members: Seq<(Seq<char>, JsonModel)>)
    requires
        clean_members(e.payload),
    ensures
        clean_members(e.with_payload(members).payload),
{
    law_sanitized_members_are_clean(members);
    lemma_clean_extended(e.payload, debug_journal::sanitized_members(members));
}

/// An entry has no member twice, however many are added to it.
pub proof fn law_entries_repeat_no_member(e: EventModel, members: Seq<(Seq<char>, JsonModel)>)
    requires
        json::names_distinct(e.payload),
    ensures
        json::names_distinct(e.with_payload(members).payload),
{
    json::law_extending_repeats_no_name(e.payload, debug_journal::sanitized_members(members));
}

/// Members are clean where each of them is.
proof fn lemma_clean_each(members: Seq<(Seq<char>, JsonModel)>)
    ensures
        clean_members(members) <==> forall|i: int|
            0 <= i < members.len() ==> !debug_journal::sensitive((#[trigger] members[i]).0)
                && clean(members[i].1),
    decreases members.len(),
{
    if members.len() > 0 {
        let rest = members.drop_last();
        lemma_clean_each(rest);
        assert forall|i: int| 0 <= i < rest.len() implies #[trigger] rest[i] == members[i] by {}
        if clean_members(members) {
            assert forall|i: int| 0 <= i < members.len() implies !debug_journal::sensitive(
                (#[trigger] members[i]).0,
            ) && clean(members[i].1) by {
                if i < rest.len() {
                    assert(rest[i] == members[i]);
                }
            }
        }
    }
}

/// Members that are added or put in the place of others are clean where they
/// were.
proof fn lemma_clean_extended(
    members: Seq<(Seq<char>, JsonModel)>,
    more: Seq<(Seq<char>, JsonModel)>,
)
    requires
        clean_members(members),
        clean_members(more),
    ensures
        clean_members(json::extended(members, more)),
    decreases more.len(),
{
    if more.len() > 0 {
        let before = json::extended(members, more.drop_last());
        let after = json::extended(members, more);
        lemma_clean_extended(members, more.drop_last());
        lists::lemma_first_where(before, json::named(more.last().0));
        lemma_clean_each(before);
        lemma_clean_each(after);
        assert forall|i: int| 0 <= i < after.len() implies !debug_journal::sensitive(
            (#[trigger] after[i]).0,
        ) && clean(after[i].1) by {
            if after[i] != more.last() {
                assert(after[i] == before[i]);
            }
        }
    }
}

/// A key whose length or beginning differs from that of another is not the same
/// in any case of its letters.
proof fn lemma_other_key(a: Seq<char>, b: Seq<char>)
    requires
        a.len() != b.len() || (a.len() > 0 && chars::lower_char(a[0]) != chars::lower_char(b[0])),
    ensures
        !chars::same_ignoring_case(a, b),
{
    assert(chars::ascii_lowered(a).len() == a.len());
    assert(chars::ascii_lowered(b).len() == b.len());
    if a.len() == b.len() {
        assert(chars::ascii_lowered(a)[0] == chars::lower_char(a[0]));
        assert(chars::ascii_lowered(b)[0] == chars::lower_char(b[0]));
    }
}

/// A name that begins otherwise than every sensitive one of its length is
/// harmless.
proof fn lemma_harmless_key(key: Seq<char>)
    requires
        key.len() > 0,
        key.len() == 10 || key.len() == 7 || key.len() == 13 ==> chars::lower_char(key[0]) != 'a',
        key.len() == 5 ==> chars::lower_char(key[0]) != 't',
        key.len() == 8 ==> chars::lower_char(key[0]) != 'r',
        key.len() == 4 ==> chars::lower_char(key[0]) != 'b',
    ensures
        !debug_journal::sensitive(key),
{
    reveal_strlit("access_key");
    reveal_strlit("api_key");
    reveal_strlit("authorization");
    reveal_strlit("token");
    reveal_strlit("raw_body");
    reveal_strlit("body");
    lemma_other_key(key, "access_key"@);
    lemma_other_key(key, "api_key"@);
    lemma_other_key(key, "authorization"@);
    lemma_other_key(key, "token"@);
    lemma_other_key(key, "raw_body"@);
    lemma_other_key(key, "body"@);
}

/// The names that every line has are harmless.
proof fn lemma_line_keys()
    ensures
        !debug_journal::sensitive("event"@),
        !debug_journal::sensitive("ts"@),
        !debug_journal::sensitive("identifier"@),
        !debug_journal::sensitive("callsign"@),
        !debug_journal::sensitive("hex"@),
        !debug_journal::sensitive("phase"@),
        !debug_journal::sensitive("target_confirmation"@),
{
    reveal_strlit("event");
    reveal_strlit("ts");
    reveal_strlit("identifier");
    reveal_strlit("callsign");
    reveal_strlit("hex");
    reveal_strlit("phase");
    reveal_strlit("target_confirmation");
    lemma_harmless_key("event"@);
    lemma_harmless_key("ts"@);
    lemma_harmless_key("identifier"@);
    lemma_harmless_key("callsign"@);
    lemma_harmless_key("hex"@);
    lemma_harmless_key("phase"@);
    lemma_harmless_key("target_confirmation"@);
}

/// A line of the journal is clean where the members of its entry are, and where
/// its other texts hold no credentials.
pub proof fn law_lines_are_clean(e: EventModel)
    requires
        clean_members(e.payload),
        credentials_masked(e.event),
        credentials_masked(e.identifier),
        e.ts is Some ==> credentials_masked(e.ts->0),
        e.callsign is Some ==> credentials_masked(e.callsign->0),
        e.hex is Some ==> credentials_masked(e.hex->0),
        e.phase is Some ==> credentials_masked(e.phase->0),
        e.target_confirmation is Some ==> credentials_masked(e.target_confirmation->0),
    ensures
        clean(e.json()),
{
    lemma_line_keys();
    let event = seq![("event"@, JsonModel::Text(e.event))];
    let ts = json::opt_member("ts"@, e.ts);
    let identifier = seq![("identifier"@, JsonModel::Text(e.identifier))];
    let callsign = json::opt_member("callsign"@, e.callsign);
    let hex = json::opt_member("hex"@, e.hex);
    let phase = json::opt_member("phase"@, e.phase);
    let confirmation = json::opt_member("target_confirmation"@, e.target_confirmation);
    lemma_clean_text("event"@, Some(e.event));
    lemma_clean_text("ts"@, e.ts);
    lemma_clean_text("identifier"@, Some(e.identifier));
    lemma_clean_text("callsign"@, e.callsign);
    lemma_clean_text("hex"@, e.hex);
    lemma_clean_text("phase"@, e.phase);
    lemma_clean_text("target_confirmation"@, e.target_confirmation);
    lemma_clean_concat(event, ts);
    lemma_clean_concat(event + ts, identifier);
    lemma_clean_concat(event + ts + identifier, callsign);
    lemma_clean_concat(event + ts + identifier + callsign, hex);
    lemma_clean_concat(event + ts + identifier + callsign + hex, phase);
    lemma_clean_concat(event + ts + identifier + callsign + hex + phase, confirmation);
    lemma_clean_concat(
        event + ts + identifier + callsign + hex + phase + confirmation,
        e.payload,
    );
}

/// A member with a text is clean where its name and its text are.
proof fn lemma_clean_text(key: Seq<char>, o: Option<Seq<char>>)
    requires
        !debug_journal::sensitive(key),
        o is Some ==> credentials_masked(o->0),
    ensures
        clean_members(json::opt_member(key, o)),
{
    reveal_with_fuel(clean_members, 2);
    if o is Some {
        let m = json::opt_member(key, o);
        assert(m.drop_last() =~= Seq::<(Seq<char>, JsonModel)>::empty());
    }
}

proof fn lemma_clean_concat(a: Seq<(Seq<char>, JsonModel)>, b: Seq<(Seq<char>, JsonModel)>)
    requires
        clean_members(a),
        clean_members(b),
    ensures
        clean_members(a + b),
    decreases b.len(),
{
    if b.len() == 0 {
        assert(a + b =~= a);
    } else {
        lemma_clean_concat(a, b.drop_last());
        assert((a + b).drop_last() =~= a + b.drop_last());
    }
}

} // verus!
