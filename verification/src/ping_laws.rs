//! What holds of pings whatever is done with them.

use vstd::prelude::*;

use crate::lists;
use crate::ping;
use crate::ping::{ManagerModel, PingModel};
use crate::text::{search, slice};
use crate::time::{Moment, Timestamp};

verus! {

/// Where names are distinct, the place of a name is the only place with it.
proof fn lemma_place(pings: Seq<(Seq<char>, PingModel)>, i: int)
    requires
        ping::names_distinct(pings),
        0 <= i < pings.len(),
    ensures
        ping::place_of(pings, pings[i].0) == Some(i),
{
    let name = pings[i].0;
    assert forall|j: int| 0 <= j < i implies (#[trigger] pings[j]).0 != name by {
        assert(pings[j].0 != pings[i].0);
    }
    lists::lemma_first_at(pings, ping::named(name), i);
}

/// What a name stands for depends on what stands under it alone.
pub proof fn lemma_ping_of(pings: Seq<(Seq<char>, PingModel)>, name: Seq<char>)
    requires
        ping::names_distinct(pings),
    ensures
        match ping::place_of(pings, name) {
            Some(i) => 0 <= i < pings.len() && pings[i].0 == name,
            None => forall|i: int| 0 <= i < pings.len() ==> (#[trigger] pings[i]).0 != name,
        },
{
    lists::lemma_first_where(pings, ping::named(name));
}

/// A new ping stands under its name, and nothing changes for other names.
pub proof fn law_a_new_ping_disturbs_no_other(
    m: ManagerModel,
    name: Seq<char>,
    p: PingModel,
    other: Seq<char>,
)
    requires
        m.well_formed(),
        ping::place_of(m.pings, name) is None,
        p.well_formed(),
    ensures
        ({
            let after = ManagerModel { pings: m.pings.push((name, p)), ..m };
            &&& after.well_formed()
            &&& ping::ping_of(after.pings, name) == Some(p)
            &&& other != name ==> ping::ping_of(after.pings, other) == ping::ping_of(
                m.pings,
                other,
            )
        }),
{
    let after = m.pings.push((name, p));
    lemma_ping_of(m.pings, name);
    assert(ping::names_distinct(after)) by {
        assert forall|i: int, j: int| 0 <= i < j < after.len() implies (#[trigger] after[i]).0 != (
        #[trigger] after[j]).0 by {
            assert(after[i] == m.pings[i]);
            if j < m.pings.len() {
                assert(after[j] == m.pings[j]);
            }
        }
    }
    lemma_place(after, m.pings.len() as int);
    if other != name {
        lemma_ping_of(m.pings, other);
        lemma_ping_of(after, other);
        match ping::place_of(m.pings, other) {
            Some(i) => {
                assert(after[i] == m.pings[i]);
                lemma_place(after, i);
            },
            None => {
                if let Some(k) = ping::place_of(after, other) {
                    if k < m.pings.len() {
                        assert(after[k] == m.pings[k]);
                    }
                }
            },
        }
    }
}

/// Changing a ping changes it alone, and keeps its name.
pub proof fn law_a_changed_ping_disturbs_no_other(
    m: ManagerModel,
    name: Seq<char>,
    p: PingModel,
    other: Seq<char>,
)
    requires
        m.well_formed(),
        ping::place_of(m.pings, name) is Some,
        p.well_formed(),
    ensures
        ({
            let after = m.with_ping(ping::place_of(m.pings, name)->0, p);
            &&& after.well_formed()
            &&& ping::ping_of(after.pings, name) == Some(p)
            &&& other != name ==> ping::ping_of(after.pings, other) == ping::ping_of(
                m.pings,
                other,
            )
        }),
{
    let i = ping::place_of(m.pings, name)->0;
    lemma_ping_of(m.pings, name);
    let after = m.with_ping(i, p).pings;
    assert forall|k: int| 0 <= k < after.len() implies (#[trigger] after[k]).0 == m.pings[k].0 by {}
    assert(ping::names_distinct(after)) by {
        assert forall|a: int, b: int| 0 <= a < b < after.len() implies (#[trigger] after[a]).0 != (
        #[trigger] after[b]).0 by {
            assert(m.pings[a].0 != m.pings[b].0);
        }
    }
    lemma_place(after, i);
    if other != name {
        lemma_ping_of(m.pings, other);
        lemma_ping_of(after, other);
        match ping::place_of(m.pings, other) {
            Some(k) => {
                assert(after[k] == m.pings[k]);
                lemma_place(after, k);
            },
            None => {
                if let Some(k) = ping::place_of(after, other) {
                    assert(m.pings[k].0 == other);
                }
            },
        }
    }
}

/// A deleted ping is gone, and nothing changes for other names.
pub proof fn law_a_deleted_ping_is_gone(m: ManagerModel, name: Seq<char>, other: Seq<char>)
    requires
        m.well_formed(),
        ping::place_of(m.pings, name) is Some,
    ensures
        ({
            let after = m.pings.remove(ping::place_of(m.pings, name)->0);
            &&& ping::names_distinct(after)
            &&& ping::ping_of(after, name) is None
            &&& other != name ==> ping::ping_of(after, other) == ping::ping_of(m.pings, other)
        }),
{
    let i = ping::place_of(m.pings, name)->0;
    lemma_ping_of(m.pings, name);
    let after = m.pings.remove(i);
    assert forall|k: int| 0 <= k < after.len() implies #[trigger] after[k] == m.pings[if k < i {
        k
    } else {
        k + 1
    }] by {}
    assert(ping::names_distinct(after)) by {
        assert forall|a: int, b: int| 0 <= a < b < after.len() implies (#[trigger] after[a]).0 != (
        #[trigger] after[b]).0 by {
            let x = if a < i {
                a
            } else {
                a + 1
            };
            let y = if b < i {
                b
            } else {
                b + 1
            };
            assert(m.pings[x].0 != m.pings[y].0);
        }
    }
    lemma_ping_of(after, name);
    if let Some(k) = ping::place_of(after, name) {
        let x = if k < i {
            k
        } else {
            k + 1
        };
        assert(m.pings[x].0 == m.pings[i].0);
        if x < i {
            assert(m.pings[x].0 != m.pings[i].0);
        } else {
            assert(m.pings[i].0 != m.pings[x].0);
        }
    }
    if other != name {
        lemma_ping_of(m.pings, other);
        lemma_ping_of(after, other);
        match ping::place_of(m.pings, other) {
            Some(k) => {
                let x = if k < i {
                    k
                } else {
                    k - 1
                };
                assert(after[x] == m.pings[k]);
                lemma_place(after, x);
            },
            None => {
                if let Some(k) = ping::place_of(after, other) {
                    let x = if k < i {
                        k
                    } else {
                        k + 1
                    };
                    assert(m.pings[x].0 == other);
                }
            },
        }
    }
}

/// A user who joins and leaves again leaves the members as they were, and no
/// user is ever a member twice.
pub proof fn law_leaving_undoes_joining(members: Seq<Seq<char>>, user: Seq<char>)
    requires
        members.no_duplicates(),
        !members.contains(user),
    ensures
        members.push(user).no_duplicates(),
        members.push(user).contains(user),
        members.push(user).remove(members.push(user).index_of(user)) == members,
{
    let joined = members.push(user);
    assert(joined[members.len() as int] == user);
    assert(joined.contains(user));
    let at = joined.index_of(user);
    assert(joined[at] == user);
    if at < members.len() {
        assert(members[at] == user);
        assert(members.contains(user));
    }
    assert(joined.remove(at) =~= members);
}

/// A user who leaves is a member no more, and all others stay members.
pub proof fn law_leaving_concerns_one_user(
    members: Seq<Seq<char>>,
    user: Seq<char>,
    other: Seq<char>,
)
    requires
        members.no_duplicates(),
        members.contains(user),
    ensures
        ({
            let left = members.remove(members.index_of(user));
            &&& left.no_duplicates()
            &&& !left.contains(user)
            &&& other != user ==> (left.contains(other) <==> members.contains(other))
        }),
{
    let i = members.index_of(user);
    let left = members.remove(i);
    assert(members[i] == user);
    assert forall|k: int| 0 <= k < left.len() implies #[trigger] left[k] == members[if k < i {
        k
    } else {
        k + 1
    }] by {}
    if left.contains(user) {
        let k = left.index_of(user);
        let x = if k < i {
            k
        } else {
            k + 1
        };
        assert(members[x] == members[i]);
    }
    if other != user && members.contains(other) {
        let k = members.index_of(other);
        let x = if k < i {
            k
        } else {
            k - 1
        };
        assert(left[x] == other);
    }
    if left.contains(other) {
        let k = left.index_of(other);
        let x = if k < i {
            k
        } else {
            k + 1
        };
        assert(members[x] == other);
    }
}

/// Firing a ping keeps the manager in order, and the ping rests from then on
/// for exactly its cooldown.
pub proof fn law_fired_pings_cool_down(
    m: ManagerModel,
    name: Seq<char>,
    now: Moment,
    at: Timestamp,
    default_cooldown: u128,
    later: Moment,
)
    requires
        m.well_formed(),
        ping::place_of(m.pings, name) is Some,
        now.nanos <= later.nanos,
    ensures
        ({
            let after = m.triggered(name, now, at);
            let cooldown = ping::ping_of(m.pings, name)->0.cooldown_nanos(default_cooldown);
            &&& after.well_formed()
            &&& after.remaining(name, default_cooldown, later) == if later.nanos - now.nanos
                < cooldown {
                Some((cooldown - (later.nanos - now.nanos)) as u128)
            } else {
                None
            }
        }),
{
    let i = ping::place_of(m.pings, name)->0;
    let p = m.pings[i].1;
    lemma_ping_of(m.pings, name);
    law_a_changed_ping_disturbs_no_other(m, name, p.fired(at), name);
    let fires = m.last_triggered;
    lists::lemma_first_where(fires, ping::fired_as(name));
    let after = m.triggered(name, now, at);
    match ping::trigger_place(fires, name) {
        Some(k) => {
            assert(after.last_triggered[k] == (name, now));
            assert forall|j: int| 0 <= j < k implies (#[trigger] after.last_triggered[j]).0
                != name by {
                assert(fires[j].0 != name);
            }
            lists::lemma_first_at(
                after.last_triggered,
                ping::fired_as(name),
                k,
            );
            assert forall|a: int, b: int| 0 <= a < b < fires.len() implies (
            #[trigger] after.last_triggered[a]).0 != (#[trigger] after.last_triggered[b]).0 by {
                assert(fires[a].0 != fires[b].0);
                assert(after.last_triggered[a].0 == fires[a].0);
                assert(after.last_triggered[b].0 == fires[b].0);
            }
        },
        None => {
            let k = fires.len() as int;
            assert(after.last_triggered[k] == (name, now));
            assert forall|j: int| 0 <= j < k implies (#[trigger] after.last_triggered[j]).0
                != name by {
                assert(fires[j].0 != name);
            }
            lists::lemma_first_at(
                after.last_triggered,
                ping::fired_as(name),
                k,
            );
            assert forall|a: int, b: int| 0 <= a < b < after.last_triggered.len() implies (
            #[trigger] after.last_triggered[a]).0 != (#[trigger] after.last_triggered[b]).0 by {
                assert(after.last_triggered[a] == fires[a]);
                assert(fires[a].0 != name);
                if b < k {
                    assert(after.last_triggered[b] == fires[b]);
                }
            }
        },
    }
}

/// A ping that is not public is fired by its members alone, and no ping is
/// fired while it rests.
pub proof fn law_only_members_fire(
    m: ManagerModel,
    name: Seq<char>,
    sender: Seq<char>,
    default_cooldown: u128,
    public: bool,
    now: Moment,
)
    requires
        m.decision(name, sender, default_cooldown, public, now) is Fire,
    ensures
        public || m.has_member(name, sender),
        m.remaining(name, default_cooldown, now) is None,
        ping::place_of(m.pings, name) is Some,
{
}

/// Replacing parts of a line by parts of a line gives a line.
proof fn lemma_replaced_one_line(s: Seq<char>, needle: Seq<char>, by: Seq<char>)
    requires
        ping::one_line(s),
        ping::one_line(by),
    ensures
        ping::one_line(search::replaced(s, needle, by)),
    decreases s.len(),
{
    if needle.len() == 0 || s.len() < needle.len() {
    } else if search::begins_with(s, needle) {
        lemma_replaced_one_line(s.skip(needle.len() as int), needle, by);
    } else {
        lemma_replaced_one_line(s.drop_first(), needle, by);
    }
}

/// Lines one after the other, with a line between neighbours, give a line.
proof fn lemma_joined_one_line(parts: Seq<Seq<char>>, sep: Seq<char>)
    requires
        ping::one_line(sep),
        forall|i: int| 0 <= i < parts.len() ==> ping::one_line(#[trigger] parts[i]),
    ensures
        ping::one_line(slice::joined(parts, sep)),
    decreases parts.len(),
{
    if parts.len() > 1 {
        lemma_joined_one_line(parts.drop_last(), sep);
    }
}

/// The message of a ping fits into one line of chat, where the logins do.
pub proof fn law_messages_fit_into_one_line(p: PingModel, sender: Seq<char>)
    requires
        p.well_formed(),
        ping::one_line(sender),
        forall|i: int| 0 <= i < p.members.len() ==> ping::one_line(#[trigger] p.members[i]),
    ensures
        ping::rendered(p, sender) is Some ==> ping::one_line(ping::rendered(p, sender)->0),
{
    reveal_strlit("@");
    reveal_strlit(" ");
    let who = ping::addressed(p, sender);
    let shown = who.map_values(|m: Seq<char>| "@"@ + m);
    assert forall|i: int| 0 <= i < shown.len() implies ping::one_line(#[trigger] shown[i]) by {
        assert(who.contains(who[i]));
        p.members.lemma_filter_contains_rev(
            ping::is_addressed(p.template, sender),
            who[i],
        );
        let k = choose|k: int| 0 <= k < p.members.len() && p.members[k] == who[i];
        assert(ping::one_line(p.members[k]));
        assert(shown[i] == "@"@ + who[i]);
    }
    lemma_joined_one_line(shown, " "@);
    let first = search::replaced(p.template, "{mentions}"@, ping::mentions(who));
    lemma_replaced_one_line(p.template, "{mentions}"@, ping::mentions(who));
    lemma_replaced_one_line(first, "{sender}"@, "@"@ + sender);
}

} // verus!
