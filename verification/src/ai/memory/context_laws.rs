//! What holds of the parts of a prompt: what stands in them, and in which order.

use vstd::prelude::*;

use super::inject;
use super::inject::{FileModel, LabelModel, OptsModel, SectionModel, Shelf};
use super::inject_laws;
use crate::ai::chat_history::{ChatHistorySource, EntryModel};
use crate::berlin;
use crate::text::{chars, search, slice};
use crate::time;

verus! {

/// A block opens with what it is about and its nonce, holds the text, and closes with
/// the same nonce.
#[verifier::spinoff_prover]
#[verifier::rlimit(60)]
pub proof fn law_blocks_enclose_their_text(label: LabelModel, nonce: Seq<char>, body: Seq<char>)
    requires
        !search::contains(body, "<<<FILE"@),
        !search::contains(body, "<<<ENDFILE"@),
    ensures
        inject::fenced(label, nonce, body) == ("<<<FILE "@ + inject::label_attrs(label) + " nonce="@
            + nonce + ">>>\n"@) + body + ("\n<<<ENDFILE nonce="@ + nonce + ">>>"@),
{
    assert(inject::fenced(label, nonce, body) =~= ("<<<FILE "@ + inject::label_attrs(label)
        + " nonce="@ + nonce + ">>>\n"@) + body + ("\n<<<ENDFILE nonce="@ + nonce + ">>>"@));
}

/// A text that holds a fence is left out of its block.
pub proof fn law_texts_with_fences_are_left_out(
    label: LabelModel,
    nonce: Seq<char>,
    a: Seq<char>,
    b: Seq<char>,
)
    requires
        search::contains(a, "<<<FILE"@) || search::contains(a, "<<<ENDFILE"@),
        search::contains(b, "<<<FILE"@) || search::contains(b, "<<<ENDFILE"@),
    ensures
        inject::fenced(label, nonce, a) == inject::fenced(label, nonce, b),
{
}

/// A block tells the kind of its file, and the id of a user, the name of a state or
/// the day of a transcript.
#[verifier::spinoff_prover]
#[verifier::rlimit(60)]
pub proof fn law_labels_tell_the_file(
    id: Seq<char>,
    login: Option<Seq<char>>,
    display_name: Option<Seq<char>>,
)
    ensures
        inject::label_attrs(LabelModel::Soul) == "kind=soul"@,
        inject::label_attrs(LabelModel::Lore) == "kind=lore"@,
        inject::label_attrs(LabelModel::State { slug: id }) == "kind=state slug="@ + id,
        inject::label_attrs(LabelModel::Transcript { date: id }) == "kind=transcript date="@ + id,
        ("kind=user id="@ + id).is_prefix_of(
            inject::label_attrs(LabelModel::User { id, login, display_name }),
        ),
        login is Some && login->0.len() > 0 ==> ("kind=user id="@ + id + " login="@
            + login->0).is_prefix_of(
            inject::label_attrs(LabelModel::User { id, login, display_name }),
        ),
{
    let attrs = inject::label_attrs(LabelModel::User { id, login, display_name });
    assert(attrs =~= ("kind=user id="@ + id) + (inject::login_attr(login) + inject::name_attr(
        display_name,
    )));
    if login is Some && login->0.len() > 0 {
        let front = "kind=user id="@ + id + " login="@ + login->0;
        assert(attrs =~= front + inject::name_attr(display_name));
    }
}

/// A plain display name stands in its block as it is, in quotes.
#[verifier::spinoff_prover]
#[verifier::rlimit(60)]
pub proof fn law_labels_tell_the_name(id: Seq<char>, login: Option<Seq<char>>, name: Seq<char>)
    requires
        name.len() > 0,
        forall|i: int| 0 <= i < name.len() ==> inject::attr_char(#[trigger] name[i]),
    ensures
        (" name=\""@ + name + "\""@).is_suffix_of(
            inject::label_attrs(LabelModel::User { id, login, display_name: Some(name) }),
        ),
{
    lemma_all_kept(name, inject::attr_chars());
    let attrs = inject::label_attrs(LabelModel::User { id, login, display_name: Some(name) });
    assert(attrs =~= ("kind=user id="@ + id + inject::login_attr(login)) + (" name=\""@ + name
        + "\""@));
}

proof fn lemma_all_kept(s: Seq<char>, p: spec_fn(char) -> bool)
    requires
        forall|i: int| 0 <= i < s.len() ==> p(#[trigger] s[i]),
    ensures
        s.filter(p) == s,
    decreases s.len(),
{
    reveal(Seq::filter);
    if s.len() > 0 {
        lemma_all_kept(s.drop_last(), p);
        assert(s.drop_last().push(s.last()) =~= s);
    }
}

/// A line that the bot wrote stands under its persona, whoever's login it has.
#[verifier::spinoff_prover]
#[verifier::rlimit(60)]
pub proof fn law_own_lines(e: EntryModel, bot_login: Seq<char>, persona: Seq<char>)
    requires
        e.source is Bot || chars::same_ignoring_case(e.username, bot_login),
    ensures
        (persona + " (self): "@ + e.text).is_suffix_of(inject::entry_line(e, bot_login, persona)),
{
    let line = inject::entry_line(e, bot_login, persona);
    let end = persona + " (self): "@ + e.text;
    let clock = "["@ + time::clock_text(
        berlin::local_second_of_day(e.timestamp.spec_secs()) as nat,
    ) + "] "@;
    assert(line =~= clock + end);
}

/// A line that someone else wrote stands under the display name, and under the login
/// where there is no display name.
#[verifier::spinoff_prover]
#[verifier::rlimit(60)]
pub proof fn law_lines_of_others(e: EntryModel, bot_login: Seq<char>, persona: Seq<char>)
    requires
        e.source is User,
        !chars::same_ignoring_case(e.username, bot_login),
    ensures
        e.display_name is Some && e.display_name->0.len() > 0 ==> ("] "@ + e.display_name->0 + ": "@
            + e.text).is_suffix_of(inject::entry_line(e, bot_login, persona)),
        e.display_name is None || e.display_name->0.len() == 0 ==> ("] "@ + e.username + ": "@
            + e.text).is_suffix_of(inject::entry_line(e, bot_login, persona)),
{
    let line = inject::entry_line(e, bot_login, persona);
    let clock = "["@ + time::clock_text(
        berlin::local_second_of_day(e.timestamp.spec_secs()) as nat,
    );
    let name = if e.display_name is Some && e.display_name->0.len() > 0 {
        e.display_name->0
    } else {
        e.username
    };
    assert(line =~= clock + ("] "@ + name + ": "@ + e.text));
}

/// A line begins with the Berlin time at which it was written.
#[verifier::spinoff_prover]
#[verifier::rlimit(60)]
pub proof fn law_lines_tell_the_time(e: EntryModel, bot_login: Seq<char>, persona: Seq<char>)
    ensures
        ("["@ + time::clock_text(berlin::local_second_of_day(e.timestamp.spec_secs()) as nat)
            + "] "@).is_prefix_of(inject::entry_line(e, bot_login, persona)),
{
    let clock = "["@ + time::clock_text(
        berlin::local_second_of_day(e.timestamp.spec_secs()) as nat,
    ) + "] "@;
    let line = inject::entry_line(e, bot_login, persona);
    if e.source == ChatHistorySource::Bot || chars::same_ignoring_case(e.username, bot_login) {
        assert(line =~= clock + (persona + " (self): "@ + e.text));
    } else {
        let name = if e.display_name is Some && e.display_name->0.len() > 0 {
            e.display_name->0
        } else {
            e.username
        };
        assert(line =~= clock + (name + ": "@ + e.text));
    }
}

/// A section takes as many of the newest lines as fit: one line more would not.
pub proof fn law_sections_leave_no_room(lines: Seq<Seq<char>>, room: int)
    ensures
        ({
            let n = inject::newest_fitting(lines, room);
            &&& n <= lines.len()
            &&& n < lines.len() ==> inject::taken(lines.skip(lines.len() - n - 1)) > room
        }),
    decreases lines.len(),
{
    if lines.len() > 0 {
        let rest = lines.drop_last();
        let used = slice::utf8_len(lines.last()) + 1;
        if used > room {
            assert(lines.skip(lines.len() - 1) =~= seq![lines.last()]);
            assert(seq![lines.last()].drop_last() =~= Seq::<Seq<char>>::empty());
            assert(inject::taken(seq![lines.last()].drop_last()) == 0);
        } else {
            law_sections_leave_no_room(rest, room - used);
            let m = inject::newest_fitting(rest, room - used);
            if m < rest.len() {
                let more = lines.skip(lines.len() - m - 2);
                assert(more.drop_last() =~= rest.skip(rest.len() - m - 1));
                assert(more.last() == lines.last());
            }
        }
    }
}

/// A section begins with its channel and ends with the newest line. It tells of whom
/// it holds lines.
#[verifier::spinoff_prover]
#[verifier::rlimit(60)]
pub proof fn law_sections_end_with_the_newest_line(
    entries: Seq<EntryModel>,
    login: Seq<char>,
    room: int,
    bot_login: Seq<char>,
    persona: Seq<char>,
)
    requires
        entries.len() > 0,
        slice::utf8_len(inject::entry_line(entries.last(), bot_login, persona)) + 1 <= room,
    ensures
        ({
            let s = inject::recent_section(entries, login, room, bot_login, persona);
            &&& s is Some
            &&& ("## Recent chat (#"@ + login + ")\n"@).is_prefix_of(s->0.body)
            &&& inject::entry_line(entries.last(), bot_login, persona).is_suffix_of(s->0.body)
            &&& s->0.usernames.len() > 0
            &&& s->0.usernames[0] == chars::ascii_lowered(entries.last().username)
        }),
{
    let lines = inject::chat_lines(entries, bot_login, persona);
    let last = inject::entry_line(entries.last(), bot_login, persona);
    assert(lines.last() == last);
    let n = inject::newest_fitting(lines, room);
    law_sections_leave_no_room(lines, room);
    assert(n > 0);
    let newest = lines.skip(lines.len() - n);
    assert(newest.last() == last);
    let head = "## Recent chat (#"@ + login + ")\n"@;
    lemma_joined_end(head, newest, "\n"@);
    let shown = entries.skip(entries.len() - n);
    assert(shown.last() == entries.last());
    assert(inject::writers(shown).last() == chars::ascii_lowered(entries.last().username));
}

/// A text before joined parts is its beginning, and the last part is its end.
proof fn lemma_joined_end(head: Seq<char>, parts: Seq<Seq<char>>, sep: Seq<char>)
    requires
        parts.len() > 0,
    ensures
        head.is_prefix_of(head + slice::joined(parts, sep)),
        parts.last().is_suffix_of(head + slice::joined(parts, sep)),
{
    let whole = head + slice::joined(parts, sep);
    if parts.len() > 1 {
        let front = slice::joined(parts.drop_last(), sep);
        assert(whole =~= (head + front + sep) + parts.last());
    } else {
        assert(whole == head + parts.last());
    }
}

/// The chat of the channel in which the bot was addressed comes first.
#[verifier::spinoff_prover]
#[verifier::rlimit(60)]
pub proof fn law_the_addressed_channel_leads(
    opts: OptsModel,
    soul: Seq<char>,
    lore: Seq<char>,
    users: Seq<FileModel>,
    states: Seq<FileModel>,
)
    requires
        opts.primary_section() is Some,
        opts.ai_section() is Some,
    ensures
        ({
            let chat = opts.context(soul, lore, users, states).recent_chat;
            let main = opts.primary_section()->0.body;
            let second = opts.ai_section()->0.body;
            &&& opts.invocation_channel is Primary ==> chat == main + "\n\n"@ + second
            &&& opts.invocation_channel is AiChannel ==> chat == second + "\n\n"@ + main
        }),
{
    let bodies = inject::bodies(opts.sections());
    let front = bodies.drop_last();
    assert(bodies.len() == 2);
    assert(front.len() == 1);
    assert(slice::joined(front, "\n\n"@) == bodies[0]);
}

/// A channel without a section leaves the other one alone.
pub proof fn law_missing_channels(
    opts: OptsModel,
    soul: Seq<char>,
    lore: Seq<char>,
    users: Seq<FileModel>,
    states: Seq<FileModel>,
)
    ensures
        ({
            let chat = opts.context(soul, lore, users, states).recent_chat;
            &&& opts.primary_section() is Some && opts.ai_section() is None ==> chat
                == opts.primary_section()->0.body
            &&& opts.primary_section() is None && opts.ai_section() is Some ==> chat
                == opts.ai_section()->0.body
            &&& opts.primary_section() is None && opts.ai_section() is None ==> chat.len() == 0
        }),
{
    let bodies = inject::bodies(opts.sections());
    if bodies.len() == 1 {
        assert(slice::joined(bodies, "\n\n"@) == bodies[0]);
    }
}

/// Each channel has its own room and shows its own lines: two kibibytes are for the
/// main channel, one is for the other.
pub proof fn law_channels_show_their_own_lines(opts: OptsModel, lines: Seq<EntryModel>, login: Seq<char>)
    ensures
        opts.primary_history == Some(lines) ==> opts.primary_section() == inject::recent_section(
            lines,
            opts.primary_login,
            2_048,
            opts.bot_login,
            opts.persona_name,
        ),
        opts.primary_history is None ==> opts.primary_section() is None,
        opts.ai_channel_history == Some(lines) && opts.ai_channel_login == Some(login)
            ==> opts.ai_section() == inject::recent_section(
            lines,
            login,
            1_024,
            opts.bot_login,
            opts.persona_name,
        ),
        opts.ai_channel_history is None ==> opts.ai_section() is None,
{
}

/// What lasts begins with the bot itself and its lore, in this order and whatever
/// their size.
#[verifier::spinoff_prover]
#[verifier::rlimit(60)]
pub proof fn law_the_bot_comes_first(
    opts: OptsModel,
    soul: Seq<char>,
    lore: Seq<char>,
    users: Seq<FileModel>,
    states: Seq<FileModel>,
)
    ensures
        (inject::fenced(LabelModel::Soul, opts.nonce, soul) + "\n"@ + inject::fenced(
            LabelModel::Lore,
            opts.nonce,
            lore,
        )).is_prefix_of(opts.context(soul, lore, users, states).durable_memory),
{
    let two = seq![
        inject::fenced(LabelModel::Soul, opts.nonce, soul),
        inject::fenced(LabelModel::Lore, opts.nonce, lore),
    ];
    lemma_joined_begins(two, opts.user_blocks(soul, lore, users), "\n"@);
    assert(two.drop_last() =~= seq![two[0]]);
    assert(slice::joined(two.drop_last(), "\n"@) == two[0]);
}

/// Joined parts begin with the first of them joined.
proof fn lemma_joined_begins(a: Seq<Seq<char>>, b: Seq<Seq<char>>, sep: Seq<char>)
    requires
        a.len() > 0,
    ensures
        slice::joined(a, sep).is_prefix_of(slice::joined(a + b, sep)),
    decreases b.len(),
{
    if b.len() == 0 {
        assert(a + b =~= a);
    } else {
        lemma_joined_begins(a, b.drop_last(), sep);
        assert((a + b).drop_last() =~= a + b.drop_last());
        let front = slice::joined(a + b.drop_last(), sep);
        assert(slice::joined(a + b, sep) =~= front + (sep + b.last()));
    }
}

/// Of two files that are both about the speaker, or both not, the newer one is read
/// first.
pub proof fn law_newer_files_lead(list: Seq<FileModel>, speaker: Seq<char>, i: int, j: int)
    requires
        0 <= i < j < list.len(),
    ensures
        ({
            let order = inject::ordered(list, speaker);
            &&& order.len() == list.len()
            &&& inject::about_speaker(order[i], speaker) == inject::about_speaker(order[j], speaker)
                ==> order[i].updated_at.ticks >= order[j].updated_at.ticks
            &&& inject::about_speaker(order[j], speaker) ==> inject::about_speaker(
                order[i],
                speaker,
            )
        }),
{
    inject_laws::law_files_are_sorted(list, speaker);
}

/// A file is about the speaker where it has the speaker's login, in whatever case.
pub proof fn law_files_about_the_speaker(f: FileModel, speaker: Seq<char>)
    ensures
        inject::about_speaker(f, speaker) <==> speaker.len() > 0 && f.username is Some
            && chars::same_ignoring_case(f.username->0, speaker),
{
}

/// A file about the speaker, or about someone who wrote one of the lines shown, may
/// go into the prompt.
pub proof fn law_files_about_those_present(opts: OptsModel, users: Seq<FileModel>, i: int)
    requires
        0 <= i < users.len(),
        users[i].username is Some,
        opts.speaker_login.len() > 0 && chars::ascii_lowered(users[i].username->0)
            == chars::ascii_lowered(opts.speaker_login) || opts.mentioned().contains(
            chars::ascii_lowered(users[i].username->0),
        ),
    ensures
        opts.user_files(users).contains(users[i]),
{
    let p = inject::in_scope(opts.mentioned(), opts.speaker());
    let kept = inject::scoped(users, opts.chat_turn(), opts.mentioned(), opts.speaker());
    assert(p(users[i]));
    users.lemma_filter_contains(p, i);
    assert(kept.contains(users[i]));
    inject_laws::law_files_are_sorted(kept, opts.speaker());
    let order = inject::ordered(kept, opts.speaker());
    broadcast use vstd::seq_lib::group_to_multiset_ensures;

    assert(kept.to_multiset().count(users[i]) > 0);
    assert(order.to_multiset().count(users[i]) > 0);
}

/// Blocks stand in the order of their files: the first one that belongs on the shelf
/// is shown if it fits, and nothing is where it does not.
pub proof fn law_blocks_stand_in_order(list: Seq<FileModel>, nonce: Seq<char>, room: int)
    requires
        list.len() > 0,
    ensures
        ({
            let f = list[0];
            &&& f.kind is User ==> {
                let block = inject::fenced(
                    LabelModel::User {
                        id: f.kind->user_id,
                        login: f.username,
                        display_name: f.display_name,
                    },
                    nonce,
                    f.body,
                );
                let shown = inject::packed(list, Shelf::Users, nonce, room);
                &&& slice::utf8_len(block) < room ==> shown.len() > 0 && shown[0] == block
                &&& slice::utf8_len(block) >= room ==> shown.len() == 0
            }
            &&& f.kind is State ==> {
                let block = inject::fenced(
                    LabelModel::State { slug: f.kind->slug },
                    nonce,
                    f.body,
                );
                let shown = inject::packed(list, Shelf::States, nonce, room);
                &&& slice::utf8_len(block) < room ==> shown.len() > 0 && shown[0] == block
                &&& slice::utf8_len(block) >= room ==> shown.len() == 0
            }
            &&& !(f.kind is User) ==> inject::packed(list, Shelf::Users, nonce, room)
                == inject::packed(list.drop_first(), Shelf::Users, nonce, room)
            &&& !(f.kind is State) ==> inject::packed(list, Shelf::States, nonce, room)
                == inject::packed(list.drop_first(), Shelf::States, nonce, room)
        }),
{
}

/// A turn is a chat turn where there is chat or someone speaks.
pub proof fn law_chat_turns(opts: OptsModel)
    ensures
        opts.chat_turn() <==> opts.primary_history is Some || opts.ai_channel_history is Some
            || opts.speaker_login.len() > 0,
{
}

/// Bytes are spelled in small hexadecimal digits, the higher half of each first.
pub proof fn law_bytes_are_spelled(bytes: Seq<u8>, b: u8)
    ensures
        inject::hex_text(bytes.push(b)) == inject::hex_text(bytes) + seq![
            "0123456789abcdef"@[b as int / 16],
            "0123456789abcdef"@[b as int % 16],
        ],
{
    reveal_strlit("0123456789abcdef");
    assert(bytes.push(b).drop_last() =~= bytes);
    assert(inject::hex_char(b as int / 16) == "0123456789abcdef"@[b as int / 16]);
    assert(inject::hex_char(b as int % 16) == "0123456789abcdef"@[b as int % 16]);
}

/// What changes is read from the newest state on, each block in a line of its own.
pub proof fn law_newest_states_lead(
    opts: OptsModel,
    soul: Seq<char>,
    lore: Seq<char>,
    users: Seq<FileModel>,
    states: Seq<FileModel>,
)
    ensures
        exists|order: Seq<FileModel>, room: int|
            {
                &&& order.to_multiset() == states.to_multiset()
                &&& forall|i: int, j: int|
                    0 <= i < j < order.len() ==> (#[trigger] order[i]).updated_at.ticks >= (
                    #[trigger] order[j]).updated_at.ticks
                &&& opts.context(soul, lore, users, states).volatile_state == slice::joined(
                    #[trigger] inject::packed(order, Shelf::States, opts.nonce, room),
                    "\n"@,
                )
            },
{
    let none = Seq::<char>::empty();
    let order = inject::ordered(states, none);
    inject_laws::law_files_are_sorted(states, none);
    assert forall|i: int, j: int| 0 <= i < j < order.len() implies (
    #[trigger] order[i]).updated_at.ticks >= (#[trigger] order[j]).updated_at.ticks by {
        assert(!inject::comes_before(order[j], order[i], none));
    }
    let room = opts.room(soul, lore) - inject::taken(opts.user_blocks(soul, lore, users));
    assert(opts.state_blocks(soul, lore, users, states) == inject::packed(
        order,
        Shelf::States,
        opts.nonce,
        room,
    ));
}

/// Whoever wrote a line that is shown is present, in whichever channel.
pub proof fn law_writers_are_present(opts: OptsModel, name: Seq<char>)
    requires
        opts.primary_section() is Some && opts.primary_section()->0.usernames.contains(name)
            || opts.ai_section() is Some && opts.ai_section()->0.usernames.contains(name),
    ensures
        opts.mentioned().contains(name),
{
    let all = opts.sections();
    assert forall|i: int| 0 <= i < all.len() && (#[trigger] all[i]).usernames.contains(
        name,
    ) implies opts.mentioned().contains(name) by {
        lemma_names(all, i, name);
    }
    let p = inject::one(opts.primary_section());
    let q = inject::one(opts.ai_section());
    if opts.primary_section() is Some && opts.primary_section()->0.usernames.contains(name) {
        let at = if opts.invocation_channel is Primary {
            0
        } else {
            q.len() as int
        };
        assert(all[at] == p[0]);
    } else {
        let at = if opts.invocation_channel is Primary {
            p.len() as int
        } else {
            0
        };
        assert(all[at] == q[0]);
    }
}

proof fn lemma_names(sections: Seq<SectionModel>, i: int, name: Seq<char>)
    requires
        0 <= i < sections.len(),
        sections[i].usernames.contains(name),
    ensures
        inject::names(sections).contains(name),
    decreases sections.len(),
{
    let front = sections.drop_last();
    let before = inject::names(front);
    let all = inject::names(sections);
    if i < front.len() {
        assert(front[i] == sections[i]);
        lemma_names(front, i, name);
        let k = before.index_of(name);
        assert(all[k] == name);
    } else {
        let k = sections[i].usernames.index_of(name);
        assert(all[before.len() + k] == name);
    }
}

} // verus!
