//! What comes of requests about pings, and what their messages say.

use vstd::prelude::*;

use crate::ai::memory::template_laws;
use crate::ping;
use crate::ping::{DecisionModel, ErrorModel, ManagerModel, PingModel};
use crate::ping_laws;
use crate::text::{chars, search, slice};
use crate::time::{Moment, Timestamp};

verus! {

/// There is such a ping under the name.
pub open spec fn stands(m: ManagerModel, name: Seq<char>, p: PingModel) -> bool {
    m.pings.contains((name, p))
}

/// There is no ping under the name.
pub open spec fn free(m: ManagerModel, name: Seq<char>) -> bool {
    forall|i: int| 0 <= i < m.pings.len() ==> (#[trigger] m.pings[i]).0 != name
}

proof fn lemma_stands(m: ManagerModel, name: Seq<char>, p: PingModel)
    requires
        m.well_formed(),
    ensures
        stands(m, name, p) <==> ping::ping_of(m.pings, name) == Some(p),
        free(m, name) <==> ping::place_of(m.pings, name) is None,
{
    ping_laws::lemma_ping_of(m.pings, name);
    if let Some(i) = ping::place_of(m.pings, name) {
        if stands(m, name, p) {
            let k = choose|k: int| 0 <= k < m.pings.len() && m.pings[k] == (name, p);
            if k < i {
                assert(m.pings[k].0 != m.pings[i].0);
            } else if i < k {
                assert(m.pings[i].0 != m.pings[k].0);
            }
        }
        if m.pings[i].1 == p {
            assert(m.pings[i] == (name, p));
        }
    }
}

/// All members but one.
pub open spec fn other_than(sender: Seq<char>) -> spec_fn(Seq<char>) -> bool {
    |m: Seq<char>| m != sender
}

/// A ping addresses its members. Where its template names the sender, the sender
/// is not among them.
pub open spec fn addresses(p: PingModel, sender: Seq<char>) -> Seq<Seq<char>> {
    if search::contains(p.template, "{sender}"@) {
        p.members.filter(other_than(sender))
    } else {
        p.members
    }
}

proof fn lemma_same_filter(
    s: Seq<Seq<char>>,
    p: spec_fn(Seq<char>) -> bool,
    q: spec_fn(Seq<char>) -> bool,
)
    requires
        forall|x: Seq<char>| #[trigger] p(x) == q(x),
    ensures
        s.filter(p) == s.filter(q),
    decreases s.len(),
{
    reveal(Seq::filter);
    if s.len() > 0 {
        lemma_same_filter(s.drop_last(), p, q);
    }
}

proof fn lemma_whole_filter(s: Seq<Seq<char>>, p: spec_fn(Seq<char>) -> bool)
    requires
        forall|x: Seq<char>| #[trigger] p(x),
    ensures
        s.filter(p) == s,
    decreases s.len(),
{
    reveal(Seq::filter);
    if s.len() > 0 {
        lemma_whole_filter(s.drop_last(), p);
        assert(s.drop_last().push(s.last()) =~= s);
    }
}

proof fn lemma_addresses(p: PingModel, sender: Seq<char>)
    ensures
        ping::addressed(p, sender) == addresses(p, sender),
{
    let keep = ping::is_addressed(p.template, sender);
    if search::contains(p.template, "{sender}"@) {
        lemma_same_filter(p.members, keep, other_than(sender));
    } else {
        lemma_whole_filter(p.members, keep);
    }
}

/// A login is one word, without a brace.
pub open spec fn is_word(login: Seq<char>) -> bool {
    !login.contains(' ') && template_laws::brace_free(login)
}

/// A text is made of words that mention users, one after the other and each on its
/// own.
pub open spec fn mentions_all(text: Seq<char>, users: Seq<Seq<char>>) -> bool {
    let words = search::pieces(text, seq![' ']);
    &&& words.len() == users.len()
    &&& forall|i: int| 0 <= i < words.len() ==> #[trigger] words[i] == seq!['@'] + users[i]
}

proof fn lemma_brace_free_both(a: Seq<char>, b: Seq<char>)
    requires
        template_laws::brace_free(a),
        template_laws::brace_free(b),
    ensures
        template_laws::brace_free(a + b),
{
    assert forall|i: int| 0 <= i < (a + b).len() implies !template_laws::brace(
        #[trigger] (a + b)[i],
    ) by {
        if i < a.len() {
            assert(!template_laws::brace(a[i]));
        } else {
            assert(!template_laws::brace(b[i - a.len()]));
        }
    }
}

proof fn lemma_joined_brace_free(parts: Seq<Seq<char>>, sep: Seq<char>)
    requires
        template_laws::brace_free(sep),
        forall|i: int| 0 <= i < parts.len() ==> template_laws::brace_free(#[trigger] parts[i]),
    ensures
        template_laws::brace_free(slice::joined(parts, sep)),
    decreases parts.len(),
{
    if parts.len() > 1 {
        lemma_joined_brace_free(parts.drop_last(), sep);
        lemma_brace_free_both(slice::joined(parts.drop_last(), sep), sep);
        lemma_brace_free_both(slice::joined(parts.drop_last(), sep) + sep, parts.last());
    }
}

proof fn lemma_mentions(users: Seq<Seq<char>>)
    requires
        users.len() > 0,
        forall|i: int| 0 <= i < users.len() ==> is_word(#[trigger] users[i]),
    ensures
        mentions_all(ping::mentions(users), users),
        template_laws::brace_free(ping::mentions(users)),
{
    reveal_strlit("@");
    reveal_strlit(" ");
    assert(" "@ =~= seq![' ']);
    assert("@"@ =~= seq!['@']);
    let parts = users.map_values(|m: Seq<char>| "@"@ + m);
    assert forall|i: int| 0 <= i < parts.len() implies !(#[trigger] parts[i]).contains(' ')
        && template_laws::brace_free(parts[i]) by {
        assert(is_word(users[i]));
        assert(parts[i] == "@"@ + users[i]);
        if parts[i].contains(' ') {
            let k = choose|k: int| 0 <= k < parts[i].len() && parts[i][k] == ' ';
            assert(users[i][k - 1] == ' ');
            assert(users[i].contains(' '));
        }
        lemma_brace_free_both("@"@, users[i]);
    }
    search::lemma_pieces_of_joined(parts, ' ');
    lemma_joined_brace_free(parts, " "@);
    let words = search::pieces(ping::mentions(users), seq![' ']);
    assert(words == parts);
    assert forall|i: int| 0 <= i < words.len() implies #[trigger] words[i] == seq!['@']
        + users[i] by {
        assert(parts[i] == "@"@ + users[i]);
    }
}

proof fn lemma_addressed_words(p: PingModel, sender: Seq<char>)
    requires
        forall|i: int| 0 <= i < p.members.len() ==> is_word(#[trigger] p.members[i]),
    ensures
        forall|i: int|
            0 <= i < addresses(p, sender).len() ==> is_word(#[trigger] addresses(p, sender)[i]),
{
    let who = addresses(p, sender);
    assert forall|i: int| 0 <= i < who.len() implies is_word(#[trigger] who[i]) by {
        if search::contains(p.template, "{sender}"@) {
            assert(who.contains(who[i]));
            p.members.lemma_filter_contains_rev(other_than(sender), who[i]);
            let k = choose|k: int| 0 <= k < p.members.len() && p.members[k] == who[i];
            assert(is_word(p.members[k]));
        }
    }
}

/// The message of a ping is its template with two places filled in: in the one stand
/// the members whom it addresses, in their order, each as a word of its own that
/// mentions the member, and in the other stands a word that mentions the sender.
pub proof fn law_messages_mention_each_member(p: PingModel, sender: Seq<char>)
    requires
        forall|i: int| 0 <= i < p.members.len() ==> is_word(#[trigger] p.members[i]),
        is_word(sender),
        template_laws::unnested(p.template),
    ensures
        ping::rendered(p, sender) is None <==> addresses(p, sender).len() == 0,
        addresses(p, sender).len() > 0 ==> exists|text: Seq<char>| #[trigger]
            mentions_all(text, addresses(p, sender)) && ping::rendered(p, sender) == Some(
                template_laws::filled(
                    p.template,
                    seq![("{mentions}"@, text), ("{sender}"@, seq!['@'] + sender)],
                ),
            ),
{
    let who = addresses(p, sender);
    lemma_addresses(p, sender);
    if who.len() > 0 {
        lemma_addressed_words(p, sender);
        lemma_mentions(who);
        reveal_strlit("{mentions}");
        reveal_strlit("{sender}");
        reveal_strlit("@");
        assert("@"@ =~= seq!['@']);
        let text = ping::mentions(who);
        let by = seq!['@'] + sender;
        let none = Seq::<(Seq<char>, Seq<char>)>::empty();
        let one = none.push(("{mentions}"@, text));
        let two = one.push(("{sender}"@, by));
        lemma_brace_free_both(seq!['@'], sender);
        template_laws::lemma_filled_none(p.template);
        template_laws::lemma_one_more(p.template, none, "{mentions}"@, text);
        template_laws::lemma_one_more(p.template, one, "{sender}"@, by);
        assert(two =~= seq![("{mentions}"@, text), ("{sender}"@, by)]);
    }
}

/// Where the template of a ping has nothing but words around the place of the
/// members, the message has these words around the mentions of all members.
pub proof fn law_words_around_mentions_stay(
    p: PingModel,
    sender: Seq<char>,
    a: Seq<char>,
    b: Seq<char>,
)
    requires
        forall|i: int| 0 <= i < p.members.len() ==> is_word(#[trigger] p.members[i]),
        is_word(sender),
        p.members.len() > 0,
        template_laws::brace_free(a),
        template_laws::brace_free(b),
        p.template == a + "{mentions}"@ + b,
    ensures
        exists|text: Seq<char>| #[trigger]
            mentions_all(text, p.members) && ping::rendered(p, sender) == Some(a + text + b),
{
    reveal_strlit("{mentions}");
    reveal_strlit("{sender}");
    let token = "{mentions}"@;
    assert(!search::contains(p.template, "{sender}"@)) by {
        if search::contains(p.template, "{sender}"@) {
            let i = choose|i: int| search::occurs_at(p.template, "{sender}"@, i);
            let found = p.template.subrange(i, i + 8);
            assert(found[0] == '{' && found[1] == 's');
            assert(p.template[i] == '{' && p.template[i + 1] == 's');
            if i < a.len() {
                assert(!template_laws::brace(a[i]));
            } else if i >= a.len() + token.len() {
                assert(!template_laws::brace(b[i - a.len() - token.len()]));
            } else {
                assert(token[i - a.len()] == '{');
                assert(token[i + 1 - a.len()] == 's');
            }
        }
    }
    lemma_addressed_words(p, sender);
    lemma_mentions(p.members);
    lemma_brace_free_both(seq!['@'], sender);
    let all = ping::mentions(p.members);
    let pairs0 = seq![(token, all), ("{sender}"@, seq!['@'] + sender)];
    assert(template_laws::plain_pairs(pairs0));
    template_laws::lemma_filled_one(a, b, pairs0, 0);
    law_messages_mention_each_member(p, sender);
    let text = choose|text: Seq<char>| #[trigger]
        mentions_all(text, addresses(p, sender)) && ping::rendered(p, sender) == Some(
            template_laws::filled(
                p.template,
                seq![("{mentions}"@, text), ("{sender}"@, seq!['@'] + sender)],
            ),
        );
    lemma_addresses(p, sender);
    assert(ping::rendered(p, sender) == Some(a + all + b)) by {
        let none = Seq::<(Seq<char>, Seq<char>)>::empty();
        let one = none.push((token, all));
        let by = seq!['@'] + sender;
        reveal_strlit("@");
        assert("@"@ =~= seq!['@']);
        template_laws::lemma_filled_none(p.template);
        template_laws::lemma_one_more(p.template, none, token, all);
        template_laws::lemma_one_more(p.template, one, "{sender}"@, by);
        assert(one.push(("{sender}"@, by)) =~= pairs0);
    }
}

/// A ping is fired exactly where it exists, addresses someone and does not rest,
/// and the sender may fire it. Where the sender may not, nothing happens. Where the
/// ping rests, the sender hears for how long.
pub proof fn law_pings_fire_when_they_may(
    m: ManagerModel,
    name: Seq<char>,
    p: PingModel,
    sender: Seq<char>,
    default_cooldown: u128,
    public: bool,
    now: Moment,
)
    requires
        m.well_formed(),
        stands(m, name, p),
    ensures
        ({
            let d = m.decision(name, sender, default_cooldown, public, now);
            let may = public || p.members.contains(sender);
            let rest = m.remaining(name, default_cooldown, now);
            &&& !may ==> d is Skip
            &&& may && rest is Some ==> d == DecisionModel::OnCooldown(rest->0)
            &&& may && rest is None && addresses(p, sender).len() > 0 ==> d is Fire && Some(d->Fire_0)
                == ping::rendered(p, sender)
            &&& may && rest is None && addresses(p, sender).len() == 0 ==> d is Skip
        }),
{
    lemma_stands(m, name, p);
    lemma_addresses(p, sender);
}

/// What does not exist is not fired.
pub proof fn law_missing_pings_do_not_fire(
    m: ManagerModel,
    name: Seq<char>,
    sender: Seq<char>,
    default_cooldown: u128,
    public: bool,
    now: Moment,
)
    requires
        m.well_formed(),
        free(m, name),
    ensures
        m.decision(name, sender, default_cooldown, public, now) is Skip,
{
    ping_laws::lemma_ping_of(m.pings, name);
    if let Some(i) = ping::place_of(m.pings, name) {
        assert(m.pings[i].0 != name);
    }
}

/// A ping that was never fired does not rest. One that was rests until its cooldown,
/// or where it has none the usual one, is over.
pub proof fn law_pings_rest_for_their_cooldown(
    m: ManagerModel,
    name: Seq<char>,
    p: PingModel,
    default_cooldown: u128,
    last: Moment,
    now: Moment,
)
    requires
        m.well_formed(),
        stands(m, name, p),
        last.nanos <= now.nanos,
    ensures
        (forall|i: int| 0 <= i < m.last_triggered.len() ==> (#[trigger] m.last_triggered[i]).0 != name)
            ==> m.remaining(name, default_cooldown, now) is None,
        m.last_triggered.contains((name, last)) ==> {
            let rest = match p.cooldown {
                Some(secs) => secs * 1_000_000_000,
                None => default_cooldown as int,
            };
            let passed = now.nanos - last.nanos;
            m.remaining(name, default_cooldown, now) == if passed < rest {
                Some((rest - passed) as u128)
            } else {
                None::<u128>
            }
        },
{
    lemma_stands(m, name, p);
    let v = m.last_triggered;
    crate::lists::lemma_first_where(v, ping::fired_as(name));
    if let Some(i) = ping::trigger_place(v, name) {
        if v.contains((name, last)) {
            let k = choose|k: int| 0 <= k < v.len() && v[k] == (name, last);
            if k < i {
                assert(v[k].0 != v[i].0);
            } else if i < k {
                assert(v[i].0 != v[k].0);
            }
        }
    } else if v.contains((name, last)) {
        let k = choose|k: int| 0 <= k < v.len() && v[k] == (name, last);
        assert(!ping::fired_as(name)(v[k]));
    }
    if let Some(secs) = p.cooldown {
        assert(secs * 1_000_000_000 <= 18_446_744_073_709_551_615 * 1_000_000_000);
    }
}

/// A fired ping has been fired once more, at that instant, and is otherwise as it
/// was, as are all others.
pub proof fn law_firing_is_counted(
    m: ManagerModel,
    name: Seq<char>,
    p: PingModel,
    now: Moment,
    at: Timestamp,
    other: Seq<char>,
    q: PingModel,
)
    requires
        m.well_formed(),
        p.well_formed(),
        stands(m, name, p),
        p.fire_count < u64::MAX,
    ensures
        stands(
            m.triggered(name, now, at),
            name,
            PingModel { last_fired_at: Some(at), fire_count: (p.fire_count + 1) as u64, ..p },
        ),
        m.triggered(name, now, at).last_triggered.contains((name, now)),
        other != name ==> (stands(m.triggered(name, now, at), other, q) <==> stands(m, other, q)),
{
    let after = m.triggered(name, now, at);
    let i = ping::place_of(m.pings, name)->0;
    lemma_stands(m, name, p);
    ping_laws::lemma_ping_of(m.pings, name);
    ping_laws::law_a_changed_ping_disturbs_no_other(m, name, p.fired(at), other);
    ping_laws::law_fired_pings_cool_down(m, name, now, at, 0, now);
    lemma_stands(after, name, p.fired(at));
    lemma_stands(after, other, q);
    lemma_stands(m, other, q);
    assert(after.pings == m.with_ping(i, p.fired(at)).pings);
    crate::lists::lemma_first_where(m.last_triggered, ping::fired_as(name));
    match ping::trigger_place(m.last_triggered, name) {
        Some(k) => {
            assert(after.last_triggered[k] == (name, now));
        },
        None => {
            assert(after.last_triggered[m.last_triggered.len() as int] == (name, now));
        },
    }
}

/// A letter, a digit, a hyphen or an underscore, all of ASCII.
pub open spec fn may_be_in_a_name(c: char) -> bool {
    'a' <= c <= 'z' || 'A' <= c <= 'Z' || '0' <= c <= '9' || c == '-' || c == '_'
}

/// A ping is created exactly under a name of letters, digits, hyphens and
/// underscores, in lower case, that is not taken, with a template that fits into one
/// line. It has no members, and was never fired. Nothing else changes, and where the
/// ping is not created nothing does.
pub proof fn law_creating(
    m: ManagerModel,
    name: Seq<char>,
    template: Seq<char>,
    created_by: Seq<char>,
    cooldown: Option<u64>,
    other: Seq<char>,
    q: PingModel,
)
    requires
        m.well_formed(),
    ensures
        ({
            let (after, r) = m.create(name, template, created_by, cooldown);
            let low = chars::ascii_lowered(name);
            &&& r is Ok <==> {
                &&& name.len() > 0
                &&& forall|i: int| 0 <= i < name.len() ==> may_be_in_a_name(#[trigger] name[i])
                &&& forall|i: int| 0 <= i < template.len() ==> !chars::control(#[trigger] template[i])
                &&& free(m, low)
            }
            &&& r is Ok ==> stands(
                after,
                low,
                PingModel {
                    template,
                    members: Seq::empty(),
                    cooldown,
                    created_by,
                    last_fired_at: None,
                    fire_count: 0,
                },
            )
            &&& r is Ok ==> after.last_triggered == m.last_triggered && (other != low ==> (stands(
                after,
                other,
                q,
            ) <==> stands(m, other, q)))
            &&& r is Err ==> after == m
            &&& r is Err && name.len() == 0 ==> r->Err_0 is EmptyName
        }),
{
    let (after, r) = m.create(name, template, created_by, cooldown);
    let low = chars::ascii_lowered(name);
    let p = PingModel {
        template,
        members: Seq::empty(),
        cooldown,
        created_by,
        last_fired_at: None,
        fire_count: 0,
    };
    lemma_stands(m, low, p);
    assert(low.len() == name.len());
    assert(ping::good_name(low) <==> forall|i: int|
        0 <= i < name.len() ==> may_be_in_a_name(#[trigger] name[i])) by {
        if ping::good_name(low) {
            assert forall|i: int| 0 <= i < name.len() implies may_be_in_a_name(
                #[trigger] name[i],
            ) by {
                assert(low[i] == chars::lower_char(name[i]));
                assert(chars::ascii_alphanumeric(low[i]) || low[i] == '-' || low[i] == '_');
            }
        }
        if forall|i: int| 0 <= i < name.len() ==> may_be_in_a_name(#[trigger] name[i]) {
            assert forall|i: int| 0 <= i < low.len() implies chars::ascii_alphanumeric(
                #[trigger] low[i],
            ) || low[i] == '-' || low[i] == '_' by {
                assert(low[i] == chars::lower_char(name[i]));
                assert(may_be_in_a_name(name[i]));
            }
        }
    }
    if r is Ok {
        ping_laws::law_a_new_ping_disturbs_no_other(m, low, p, other);
        lemma_stands(after, low, p);
        lemma_stands(after, other, q);
        lemma_stands(m, other, q);
    }
}

/// A user joins exactly a ping that exists and of which the user is no member yet,
/// and is then its last member. Nothing else changes, and where the user does not
/// join nothing does.
pub proof fn law_joining(
    m: ManagerModel,
    name: Seq<char>,
    p: PingModel,
    user: Seq<char>,
    other: Seq<char>,
    q: PingModel,
)
    requires
        m.well_formed(),
        stands(m, name, p),
    ensures
        ({
            let (after, r) = m.join(name, user);
            let login = slice::lowercased(user);
            &&& r is Ok <==> !p.members.contains(login)
            &&& r is Ok ==> stands(after, name, PingModel { members: p.members.push(login), ..p })
            &&& r is Ok ==> after.last_triggered == m.last_triggered
            &&& r is Ok && other != name ==> (stands(after, other, q) <==> stands(m, other, q))
            &&& r is Err ==> after == m && r->Err_0 == (ErrorModel::AlreadyMember { user, name })
        }),
{
    let (after, r) = m.join(name, user);
    let login = slice::lowercased(user);
    let more = PingModel { members: p.members.push(login), ..p };
    lemma_stands(m, name, p);
    ping_laws::lemma_ping_of(m.pings, name);
    if r is Ok {
        assert(p.well_formed());
        ping_laws::law_leaving_undoes_joining(p.members, login);
        ping_laws::law_a_changed_ping_disturbs_no_other(m, name, more, other);
        lemma_stands(after, name, more);
        lemma_stands(after, other, q);
        lemma_stands(m, other, q);
    }
}

/// A user leaves exactly a ping of which the user is a member. The others stay
/// members, in their order, and nothing else changes. Where the user does not leave
/// nothing does.
pub proof fn law_leaving(
    m: ManagerModel,
    name: Seq<char>,
    p: PingModel,
    user: Seq<char>,
    k: int,
    other: Seq<char>,
    q: PingModel,
)
    requires
        m.well_formed(),
        stands(m, name, p),
    ensures
        ({
            let (after, r) = m.leave(name, user);
            let login = slice::lowercased(user);
            &&& r is Ok <==> p.members.contains(login)
            &&& 0 <= k < p.members.len() && p.members[k] == login ==> r is Ok && stands(
                after,
                name,
                PingModel { members: p.members.take(k) + p.members.skip(k + 1), ..p },
            )
            &&& r is Ok ==> after.last_triggered == m.last_triggered
            &&& r is Ok && other != name ==> (stands(after, other, q) <==> stands(m, other, q))
            &&& r is Err ==> after == m && r->Err_0 == (ErrorModel::NotMember { user, name })
        }),
{
    let (after, r) = m.leave(name, user);
    let login = slice::lowercased(user);
    lemma_stands(m, name, p);
    ping_laws::lemma_ping_of(m.pings, name);
    if r is Ok {
        assert(p.well_formed());
        let i = p.members.index_of(login);
        assert(p.members[i] == login);
        let less = PingModel { members: p.members.remove(i), ..p };
        ping_laws::law_leaving_concerns_one_user(p.members, login, login);
        ping_laws::law_a_changed_ping_disturbs_no_other(m, name, less, other);
        lemma_stands(after, name, less);
        lemma_stands(after, other, q);
        lemma_stands(m, other, q);
        if 0 <= k < p.members.len() && p.members[k] == login {
            assert(k == i);
            assert(p.members.remove(i) =~= p.members.take(k) + p.members.skip(k + 1));
        }
    }
}

/// A user who joins a ping and leaves it again leaves everything as it was.
pub proof fn law_joins_are_undone(m: ManagerModel, name: Seq<char>, p: PingModel, user: Seq<char>)
    requires
        m.well_formed(),
        stands(m, name, p),
        m.join(name, user).1 is Ok,
    ensures
        m.join(name, user).0.leave(name, user) == (m, Ok::<(), ErrorModel>(())),
{
    let after = m.join(name, user).0;
    let login = slice::lowercased(user);
    let more = PingModel { members: p.members.push(login), ..p };
    lemma_stands(m, name, p);
    ping_laws::lemma_ping_of(m.pings, name);
    assert(p.well_formed());
    ping_laws::law_leaving_undoes_joining(p.members, login);
    ping_laws::law_a_changed_ping_disturbs_no_other(m, name, more, name);
    let i = ping::place_of(m.pings, name)->0;
    assert(after.pings[i] == (name, more));
    assert forall|j: int| 0 <= j < i implies (#[trigger] after.pings[j]).0 != name by {
        assert(m.pings[j].0 != m.pings[i].0);
    }
    crate::lists::lemma_first_at(after.pings, ping::named(name), i);
    let (back, r) = after.leave(name, user);
    assert(more.members.contains(login));
    assert(back.pings =~= m.pings);
}

/// A ping gets another template exactly where it exists and the template fits into
/// one line. Nothing else of it changes, and no other ping does.
pub proof fn law_editing(
    m: ManagerModel,
    name: Seq<char>,
    p: PingModel,
    template: Seq<char>,
    other: Seq<char>,
    q: PingModel,
)
    requires
        m.well_formed(),
        stands(m, name, p),
    ensures
        ({
            let (after, r) = m.edit(name, template);
            &&& r is Ok <==> forall|i: int|
                0 <= i < template.len() ==> !chars::control(#[trigger] template[i])
            &&& r is Ok ==> stands(after, name, PingModel { template, ..p })
            &&& r is Ok ==> after.last_triggered == m.last_triggered
            &&& r is Ok && other != name ==> (stands(after, other, q) <==> stands(m, other, q))
            &&& r is Err ==> after == m && r->Err_0 is BadTemplate
        }),
{
    let (after, r) = m.edit(name, template);
    let new = PingModel { template, ..p };
    lemma_stands(m, name, p);
    ping_laws::lemma_ping_of(m.pings, name);
    if r is Ok {
        assert(p.well_formed());
        ping_laws::law_a_changed_ping_disturbs_no_other(m, name, new, other);
        lemma_stands(after, name, new);
        lemma_stands(after, other, q);
        lemma_stands(m, other, q);
    }
}

/// A ping that exists can be deleted. Its name is free then, and no other ping
/// changes.
pub proof fn law_deleting(
    m: ManagerModel,
    name: Seq<char>,
    p: PingModel,
    other: Seq<char>,
    q: PingModel,
)
    requires
        m.well_formed(),
        stands(m, name, p),
    ensures
        ({
            let (after, r) = m.delete(name);
            &&& r is Ok
            &&& free(after, name)
            &&& other != name ==> (stands(after, other, q) <==> stands(m, other, q))
        }),
{
    let (after, r) = m.delete(name);
    lemma_stands(m, name, p);
    ping_laws::lemma_ping_of(m.pings, name);
    ping_laws::law_a_deleted_ping_is_gone(m, name, other);
    let i = ping::place_of(m.pings, name)->0;
    ping_laws::lemma_ping_of(after.pings, name);
    if other != name {
        assert(stands(after, other, q) ==> stands(m, other, q)) by {
            if stands(after, other, q) {
                let k = choose|k: int| 0 <= k < after.pings.len() && after.pings[k] == (other, q);
                let x = if k < i {
                    k
                } else {
                    k + 1
                };
                assert(m.pings[x] == (other, q));
            }
        }
        assert(stands(m, other, q) ==> stands(after, other, q)) by {
            if stands(m, other, q) {
                let k = choose|k: int| 0 <= k < m.pings.len() && m.pings[k] == (other, q);
                let x = if k < i {
                    k
                } else {
                    k - 1
                };
                assert(after.pings[x] == (other, q));
            }
        }
    }
}

/// What does not exist can be neither changed nor joined nor left nor deleted, and
/// trying changes nothing.
pub proof fn law_missing_pings_stay_missing(
    m: ManagerModel,
    name: Seq<char>,
    user: Seq<char>,
)
    requires
        m.well_formed(),
        free(m, name),
    ensures
        m.join(name, user) == (m, Err::<(), ErrorModel>(ErrorModel::Missing { name })),
        m.leave(name, user) == (m, Err::<(), ErrorModel>(ErrorModel::Missing { name })),
        m.delete(name) == (m, Err::<(), ErrorModel>(ErrorModel::Missing { name })),
        m.edit(name, user).0 == m,
        m.edit(name, user).1 is Err,
{
    ping_laws::lemma_ping_of(m.pings, name);
    if let Some(i) = ping::place_of(m.pings, name) {
        assert(m.pings[i].0 != name);
    }
}

/// The pings of a user are those of which the user is a member.
pub proof fn law_users_see_their_pings(m: ManagerModel, user: Seq<char>, name: Seq<char>)
    ensures
        m.pings_of(user).contains(name) <==> exists|p: PingModel| #[trigger]
            stands(m, name, p) && p.members.contains(user),
{
    let has = ping::has_user(user);
    let mine = m.pings.filter(has);
    let names = m.pings_of(user);
    if names.contains(name) {
        let k = choose|k: int| 0 <= k < names.len() && names[k] == name;
        assert(mine.contains(mine[k]));
        m.pings.lemma_filter_contains_rev(has, mine[k]);
        m.pings.lemma_filter_pred(has, k);
        assert(mine[k].0 == name);
        assert(stands(m, name, mine[k].1));
    }
    if exists|p: PingModel| #[trigger] stands(m, name, p) && p.members.contains(user) {
        let p = choose|p: PingModel| #[trigger] stands(m, name, p) && p.members.contains(user);
        let i = choose|i: int| 0 <= i < m.pings.len() && m.pings[i] == (name, p);
        m.pings.lemma_filter_contains(has, i);
        let k = choose|k: int| 0 <= k < mine.len() && mine[k] == (name, p);
        assert(names[k] == name);
    }
}

/// A wish to fire a ping is decided for the one who has it and with the cooldown and
/// the openness given. Only where the ping fires is anything noted.
pub proof fn law_firing_follows_the_decision(
    m: ManagerModel,
    name: Seq<char>,
    sender: Seq<char>,
    default_cooldown: u128,
    public: bool,
    now: Moment,
    at: Timestamp,
)
    ensures
        ({
            let (after, d) = m.fire(name, sender, default_cooldown, public, now, at);
            &&& d == m.decision(name, sender, default_cooldown, public, now)
            &&& d is Fire ==> after == m.triggered(name, now, at)
            &&& !(d is Fire) ==> after == m
        }),
{
}

/// Each error tells the ping and the user that it is about.
pub proof fn law_errors_tell_what_is_wrong(user: Seq<char>, name: Seq<char>)
    ensures
        (ErrorModel::Exists { name }).text() == "Ping \""@ + name + "\" gibt es schon"@,
        (ErrorModel::Missing { name }).text() == "Ping \""@ + name + "\" gibt es nicht"@,
        (ErrorModel::AlreadyMember { user, name }).text() == user + " ist schon in \""@ + name
            + "\""@,
        (ErrorModel::NotMember { user, name }).text() == user + " ist nicht in \""@ + name
            + "\""@,
{
}

/// A deleted ping leaves no cooldown behind for one that is created under its name.
pub proof fn law_deleted_pings_leave_no_cooldown(m: ManagerModel, name: Seq<char>, p: PingModel)
    requires
        m.well_formed(),
        stands(m, name, p),
    ensures
        ping::last_trigger(m.delete(name).0.last_triggered, name) is None,
{
    let q = ping::fired_as(name);
    lemma_stands(m, name, p);
    crate::lists::lemma_first_where(m.last_triggered, q);
    let after = m.delete(name).0.last_triggered;
    assert forall|j: int| 0 <= j < after.len() implies !q(#[trigger] after[j]) by {
        if let Some(k) = ping::trigger_place(m.last_triggered, name) {
            if j < k {
                assert(after[j] == m.last_triggered[j]);
            } else {
                assert(after[j] == m.last_triggered[j + 1]);
                assert(m.last_triggered[k].0 != m.last_triggered[j + 1].0);
            }
        }
    }
    crate::lists::lemma_first_none(after, q);
}

} // verus!
