//! JSON values.

use vstd::prelude::*;

use crate::decimal::Decimal;
use crate::lists;
use crate::text::slice;

verus! {

/// A JSON value. The members of an object are in the order of insertion.
#[derive(Debug)]
pub enum Json {
    Null,
    Bool(bool),
    Int(i64),
    Dec(Decimal),
    Text(String),
    List(Vec<Json>),
    Object(Vec<(String, Json)>),
}

/// What a JSON value holds.
pub enum JsonModel {
    Null,
    Bool(bool),
    Int(int),
    Dec(Decimal),
    Text(Seq<char>),
    List(Seq<JsonModel>),
    Object(Seq<(Seq<char>, JsonModel)>),
}

/// What the value holds.
pub open spec fn model(j: Json) -> JsonModel
    decreases j,
{
    match j {
        Json::Null => JsonModel::Null,
        Json::Bool(b) => JsonModel::Bool(b),
        Json::Int(n) => JsonModel::Int(n as int),
        Json::Dec(d) => JsonModel::Dec(d),
        Json::Text(s) => JsonModel::Text(s@),
        Json::List(v) => JsonModel::List(list_model(v@)),
        Json::Object(v) => JsonModel::Object(members_model(v@)),
    }
}

/// What the values of a list hold.
pub open spec fn list_model(v: Seq<Json>) -> Seq<JsonModel>
    decreases v,
{
    if v.len() == 0 {
        Seq::empty()
    } else {
        list_model(v.drop_last()).push(model(v.last()))
    }
}

/// What the members of an object hold.
pub open spec fn members_model(v: Seq<(String, Json)>) -> Seq<(Seq<char>, JsonModel)>
    decreases v,
{
    if v.len() == 0 {
        Seq::empty()
    } else {
        members_model(v.drop_last()).push((v.last().0@, model(v.last().1)))
    }
}

/// The items of a list are modelled one by one.
pub proof fn lemma_list_model(v: Seq<Json>)
    ensures
        list_model(v).len() == v.len(),
        forall|i: int| 0 <= i < v.len() ==> #[trigger] list_model(v)[i] == model(v[i]),
    decreases v.len(),
{
    if v.len() > 0 {
        lemma_list_model(v.drop_last());
    }
}

/// The members of an object are modelled one by one.
pub proof fn lemma_members_model(v: Seq<(String, Json)>)
    ensures
        members_model(v).len() == v.len(),
        forall|i: int|
            0 <= i < v.len() ==> #[trigger] members_model(v)[i] == (v[i].0@, model(v[i].1)),
    decreases v.len(),
{
    if v.len() > 0 {
        lemma_members_model(v.drop_last());
    }
}

/// An item that is appended is modelled at the end.
pub proof fn lemma_list_push(v: Seq<Json>, j: Json)
    ensures
        list_model(v.push(j)) == list_model(v).push(model(j)),
{
    assert(v.push(j).drop_last() =~= v);
}

/// A member that is appended is modelled at the end.
pub proof fn lemma_members_push(v: Seq<(String, Json)>, key: String, j: Json)
    ensures
        members_model(v.push((key, j))) == members_model(v).push((key@, model(j))),
{
    assert(v.push((key, j)).drop_last() =~= v);
}

/// Members that follow others are modelled behind them.
pub proof fn lemma_members_concat(a: Seq<(String, Json)>, b: Seq<(String, Json)>)
    ensures
        members_model(a + b) == members_model(a) + members_model(b),
{
    lemma_members_model(a);
    lemma_members_model(b);
    lemma_members_model(a + b);
    assert(members_model(a + b) =~= members_model(a) + members_model(b));
}

/// The text of an optional string, or null.
pub open spec fn opt_text_model(o: Option<Seq<char>>) -> JsonModel {
    match o {
        Some(s) => JsonModel::Text(s),
        None => JsonModel::Null,
    }
}

pub open spec fn opt_int_model(o: Option<i64>) -> JsonModel {
    match o {
        Some(n) => JsonModel::Int(n as int),
        None => JsonModel::Null,
    }
}

pub open spec fn opt_dec_model(o: Option<Decimal>) -> JsonModel {
    match o {
        Some(d) => JsonModel::Dec(d),
        None => JsonModel::Null,
    }
}

pub open spec fn opt_bool_model(o: Option<bool>) -> JsonModel {
    match o {
        Some(b) => JsonModel::Bool(b),
        None => JsonModel::Null,
    }
}

/// The text as a JSON value.
pub fn text(s: &str) -> (j: Json)
    ensures
        model(j) == JsonModel::Text(s@),
{
    Json::Text(s.to_owned())
}

/// An optional text as a JSON value.
pub fn opt_text(o: Option<&str>) -> (j: Json)
    ensures
        model(j) == opt_text_model(slice::opt_str(o)),
{
    match o {
        Some(s) => Json::Text(s.to_owned()),
        None => Json::Null,
    }
}

pub fn opt_int(o: Option<i64>) -> (j: Json)
    ensures
        model(j) == opt_int_model(o),
{
    match o {
        Some(n) => Json::Int(n),
        None => Json::Null,
    }
}

pub fn opt_dec(o: Option<Decimal>) -> (j: Json)
    ensures
        model(j) == opt_dec_model(o),
{
    match o {
        Some(d) => Json::Dec(d),
        None => Json::Null,
    }
}

pub fn opt_bool(o: Option<bool>) -> (j: Json)
    ensures
        model(j) == opt_bool_model(o),
{
    match o {
        Some(b) => Json::Bool(b),
        None => Json::Null,
    }
}

/// Appends a member to an object under construction.
pub fn put(members: &mut Vec<(String, Json)>, key: &str, value: Json)
    ensures
        members_model(final(members)@) == members_model(old(members)@).push((key@, model(value))),
{
    let k = key.to_owned();
    proof {
        lemma_members_push(members@, k, value);
    }
    members.push((k, value));
}

/// A member has the name.
pub open spec fn named(key: Seq<char>) -> spec_fn((Seq<char>, JsonModel)) -> bool {
    |m: (Seq<char>, JsonModel)| m.0 == key
}

/// The members with one more. It takes the place of one with its name.
pub open spec fn with_member(
    members: Seq<(Seq<char>, JsonModel)>,
    member: (Seq<char>, JsonModel),
) -> Seq<(Seq<char>, JsonModel)> {
    match lists::first_where(members, named(member.0)) {
        Some(i) => members.update(i, member),
        None => members.push(member),
    }
}

/// The members with some more, one after the other.
pub open spec fn extended(
    members: Seq<(Seq<char>, JsonModel)>,
    more: Seq<(Seq<char>, JsonModel)>,
) -> Seq<(Seq<char>, JsonModel)>
    decreases more.len(),
{
    if more.len() == 0 {
        members
    } else {
        with_member(extended(members, more.drop_last()), more.last())
    }
}

/// No two members have one name.
pub open spec fn names_distinct(members: Seq<(Seq<char>, JsonModel)>) -> bool {
    forall|i: int, j: int|
        0 <= i < j < members.len() ==> (#[trigger] members[i]).0 != (#[trigger] members[j]).0
}

/// Adding members leaves no name twice.
pub proof fn law_extending_repeats_no_name(
    members: Seq<(Seq<char>, JsonModel)>,
    more: Seq<(Seq<char>, JsonModel)>,
)
    requires
        names_distinct(members),
    ensures
        names_distinct(extended(members, more)),
    decreases more.len(),
{
    if more.len() > 0 {
        law_extending_repeats_no_name(members, more.drop_last());
        let before = extended(members, more.drop_last());
        lists::lemma_first_where(before, named(more.last().0));
        match lists::first_where(before, named(more.last().0)) {
            Some(_) => {},
            None => {
                assert forall|j: int| 0 <= j < before.len() implies (#[trigger] before[j]).0
                    != more.last().0 by {
                    assert(!named(more.last().0)(before[j]));
                }
            },
        }
    }
}

/// Adds a member, in the place of one with its name.
pub fn set_member(members: &mut Vec<(String, Json)>, key: String, value: Json)
    ensures
        members_model(final(members)@) == with_member(
            members_model(old(members)@),
            (key@, model(value)),
        ),
{
    let ghost all = members_model(members@);
    let ghost p = named(key@);
    let ghost added = (key@, model(value));
    proof {
        lemma_members_model(members@);
    }
    let mut i: usize = 0;
    while i < members.len()
        invariant
            i <= members@.len(),
            *members == *old(members),
            all == members_model(members@),
            all.len() == members@.len(),
            forall|j: int|
                0 <= j < members@.len() ==> #[trigger] all[j] == (
                    members@[j].0@,
                    model(members@[j].1),
                ),
            p == named(key@),
            added == (key@, model(value)),
            forall|j: int| 0 <= j < i ==> !p(#[trigger] all[j]),
        decreases members@.len() - i,
    {
        assert(all[i as int].0 == members@[i as int].0@);
        if slice::same(members[i].0.as_str(), key.as_str()) {
            proof {
                lists::lemma_first_at(all, p, i as int);
            }
            members.set(i, (key, value));
            proof {
                lemma_members_model(members@);
                assert(members_model(members@) =~= all.update(i as int, added));
            }
            return;
        }
        i = i + 1;
    }
    proof {
        lists::lemma_first_none(all, p);
        lemma_members_push(members@, key, value);
    }
    members.push((key, value));
}

/// Adds members one after the other, each in the place of one with its name.
pub fn extend(members: &mut Vec<(String, Json)>, more: Vec<(String, Json)>)
    ensures
        members_model(final(members)@) == extended(
            members_model(old(members)@),
            members_model(more@),
        ),
{
    let ghost base = members_model(members@);
    let ghost goal = members_model(more@);
    let ghost all = more@;
    let mut rest = more;
    let ghost mut done: int = 0;
    proof {
        lemma_members_model(all);
        assert(all.skip(0) =~= all);
    }
    while rest.len() > 0
        invariant
            0 <= done <= all.len(),
            rest@ == all.skip(done),
            goal == members_model(all),
            goal.len() == all.len(),
            forall|j: int|
                0 <= j < all.len() ==> #[trigger] goal[j] == (all[j].0@, model(all[j].1)),
            members_model(members@) == extended(base, goal.take(done)),
        decreases rest@.len(),
    {
        let (key, value) = rest.remove(0);
        proof {
            let after = goal.take(done + 1);
            assert(after.drop_last() =~= goal.take(done));
            assert(after.last() == goal[done]);
            assert(rest@ =~= all.skip(done + 1));
            done = done + 1;
        }
        set_member(members, key, value);
    }
    assert(goal.take(done) =~= goal);
}

/// A member with an optional text, which is left out where there is none.
pub open spec fn opt_member(key: Seq<char>, o: Option<Seq<char>>) -> Seq<(Seq<char>, JsonModel)> {
    match o {
        Some(s) => seq![(key, JsonModel::Text(s))],
        None => Seq::empty(),
    }
}

/// Appends a member with an optional text, where there is one.
pub fn put_opt(members: &mut Vec<(String, Json)>, key: &str, o: Option<&str>)
    ensures
        members_model(final(members)@) == members_model(old(members)@) + opt_member(
            key@,
            slice::opt_str(o),
        ),
{
    if let Some(s) = o {
        put(members, key, text(s));
    }
    proof {
        let before = members_model(old(members)@);
        match o {
            Some(s) => {
                assert(before.push((key@, JsonModel::Text(s@))) =~= before + seq![
                    (key@, JsonModel::Text(s@)),
                ]);
            },
            None => {
                assert(before + Seq::<(Seq<char>, JsonModel)>::empty() =~= before);
            },
        }
    }
}

/// The list of texts as a JSON value.
pub fn text_list(v: &Vec<String>) -> (j: Json)
    ensures
        model(j) == JsonModel::List(slice::texts(v@).map_values(|s: Seq<char>| JsonModel::Text(s))),
{
    let mut out: Vec<Json> = Vec::new();
    let ghost goal = slice::texts(v@).map_values(|s: Seq<char>| JsonModel::Text(s));
    let mut i: usize = 0;
    assert(list_model(out@) =~= goal.take(0));
    while i < v.len()
        invariant
            i <= v@.len(),
            goal == slice::texts(v@).map_values(|s: Seq<char>| JsonModel::Text(s)),
            list_model(out@) == goal.take(i as int),
        decreases v@.len() - i,
    {
        let j = text(v[i].as_str());
        proof {
            lemma_list_push(out@, j);
            assert(goal.take(i + 1) =~= goal.take(i as int).push(goal[i as int]));
        }
        out.push(j);
        i = i + 1;
    }
    assert(goal.take(i as int) =~= goal);
    Json::List(out)
}

/// The value of the member `key`, the last one where there are several.
pub open spec fn member(members: Seq<(Seq<char>, JsonModel)>, key: Seq<char>) -> Option<JsonModel>
    decreases members.len(),
{
    if members.len() == 0 {
        None
    } else if members.last().0 == key {
        Some(members.last().1)
    } else {
        member(members.drop_last(), key)
    }
}

/// The value of the member `key` of an object.
pub open spec fn field(j: JsonModel, key: Seq<char>) -> Option<JsonModel> {
    match j {
        JsonModel::Object(members) => member(members, key),
        _ => None,
    }
}

/// The value of the member `key` of an object, the last one where there are
/// several.
pub fn get<'a>(j: &'a Json, key: &str) -> (r: Option<&'a Json>)
    ensures
        match r {
            Some(v) => field(model(*j), key@) == Some(model(*v)),
            None => field(model(*j), key@) is None,
        },
{
    match j {
        Json::Object(members) => {
            let mut i: usize = members.len();
            assert(members@.take(i as int) =~= members@);
            while i > 0
                invariant
                    i <= members@.len(),
                    member(members_model(members@.take(i as int)), key@) == member(
                        members_model(members@),
                        key@,
                    ),
                    model(*j) == JsonModel::Object(members_model(members@)),
                decreases i,
            {
                let ghost head = members@.take(i as int);
                proof {
                    assert(head.drop_last() =~= members@.take(i - 1));
                    assert(members_model(head).drop_last() =~= members_model(head.drop_last()));
                }
                i = i - 1;
                if slice::same(members[i].0.as_str(), key) {
                    return Some(&members[i].1);
                }
            }
            None
        },
        _ => None,
    }
}

/// A member that was set is read back, and every other member is as before.
pub proof fn law_set_members_are_read_back(
    members: Seq<(Seq<char>, JsonModel)>,
    key: Seq<char>,
    value: JsonModel,
    other: Seq<char>,
)
    requires
        names_distinct(members),
    ensures
        member(with_member(members, (key, value)), key) == Some(value),
        other != key ==> member(with_member(members, (key, value)), other) == member(
            members,
            other,
        ),
{
    let after = with_member(members, (key, value));
    lists::lemma_first_where(members, named(key));
    law_extending_repeats_no_name(members, seq![(key, value)]);
    assert(seq![(key, value)].drop_last() =~= Seq::<(Seq<char>, JsonModel)>::empty());
    assert(extended(members, seq![(key, value)].drop_last()) == members);
    assert(extended(members, seq![(key, value)]) == after);
    let at = match lists::first_where(members, named(key)) {
        Some(i) => i,
        None => members.len() as int,
    };
    assert(after[at] == (key, value));
    lemma_member_at(after, at);
    if other != key {
        if exists|i: int| 0 <= i < members.len() && (#[trigger] members[i]).0 == other {
            let i = choose|i: int| 0 <= i < members.len() && (#[trigger] members[i]).0 == other;
            assert(after[i] == members[i]);
            lemma_member_at(members, i);
            lemma_member_at(after, i);
        } else {
            lemma_no_member(members, other);
            assert forall|i: int| 0 <= i < after.len() implies (#[trigger] after[i]).0 != other by {
                if i < members.len() && i != at {
                    assert(after[i] == members[i]);
                }
            }
            lemma_no_member(after, other);
        }
    }
}

/// The last member with a name is the one that is found.
proof fn lemma_member_at(members: Seq<(Seq<char>, JsonModel)>, i: int)
    requires
        0 <= i < members.len(),
        names_distinct(members),
    ensures
        member(members, members[i].0) == Some(members[i].1),
    decreases members.len(),
{
    if i < members.len() - 1 {
        let front = members.drop_last();
        assert(front[i] == members[i]);
        assert(members[i].0 != members[members.len() - 1].0);
        assert forall|a: int, b: int| 0 <= a < b < front.len() implies (#[trigger] front[a]).0 != (
        #[trigger] front[b]).0 by {
            assert(front[a] == members[a] && front[b] == members[b]);
        }
        lemma_member_at(front, i);
    }
}

proof fn lemma_no_member(members: Seq<(Seq<char>, JsonModel)>, key: Seq<char>)
    requires
        forall|i: int| 0 <= i < members.len() ==> (#[trigger] members[i]).0 != key,
    ensures
        member(members, key) is None,
    decreases members.len(),
{
    if members.len() > 0 {
        let front = members.drop_last();
        assert forall|i: int| 0 <= i < front.len() implies (#[trigger] front[i]).0 != key by {
            assert(front[i] == members[i]);
        }
        assert(members[members.len() - 1].0 != key);
        lemma_no_member(front, key);
    }
}

} // verus!
