//! What holds of every prompt.

use vstd::prelude::*;

use super::inject;
use super::inject::{FileModel, LabelModel, OptsModel, Shelf};
use crate::lists;
use crate::text::{chars, search, slice};

verus! {

/// What goes into a prompt for a text never holds the beginning of a fence.
pub proof fn law_no_fence_passes(body: Seq<char>)
    ensures
        !inject::holds_fence(inject::scrubbed(body)),
{
    if inject::holds_fence(body) {
        reveal_strlit("<corrupt: rejected>");
        reveal_strlit("<<<FILE");
        reveal_strlit("<<<ENDFILE");
        let s = "<corrupt: rejected>"@;
        assert forall|i: int| !search::occurs_at(s, "<<<FILE"@, i) by {
            if search::occurs_at(s, "<<<FILE"@, i) {
                assert(s.subrange(i, i + 7)[1] == s[i + 1]);
            }
        }
        assert forall|i: int| !search::occurs_at(s, "<<<ENDFILE"@, i) by {
            if search::occurs_at(s, "<<<ENDFILE"@, i) {
                assert(s.subrange(i, i + 10)[1] == s[i + 1]);
            }
        }
    }
}

/// What went into a prompt once goes in again as it is.
pub proof fn law_scrubbing_is_idempotent(body: Seq<char>)
    ensures
        inject::scrubbed(inject::scrubbed(body)) == inject::scrubbed(body),
{
    law_no_fence_passes(body);
}

/// Whether a text has no opening angle bracket.
pub open spec fn without_bracket(s: Seq<char>) -> bool {
    forall|i: int| 0 <= i < s.len() ==> #[trigger] s[i] != '<'
}

/// A block ends where its closing fence stands, and nowhere before: no text
/// closes its own block. That holds where the attributes and the nonce have no
/// opening angle bracket.
pub proof fn law_no_text_closes_its_block(label: LabelModel, nonce: Seq<char>, body: Seq<char>)
    requires
        without_bracket(inject::label_attrs(label)),
        without_bracket(nonce),
    ensures
        ({
            let block = inject::fenced(label, nonce, body);
            let close = "<<<ENDFILE nonce="@ + nonce + ">>>"@;
            search::index_of(block, "<<<ENDFILE"@) == Some(block.len() - close.len())
        }),
{
    reveal_strlit("<<<FILE ");
    reveal_strlit(" nonce=");
    reveal_strlit(">>>\n");
    reveal_strlit("\n<<<ENDFILE nonce=");
    reveal_strlit("<<<ENDFILE nonce=");
    reveal_strlit(">>>");
    reveal_strlit("<<<ENDFILE");
    law_no_fence_passes(body);
    let block = inject::fenced(label, nonce, body);
    let close = "<<<ENDFILE nonce="@ + nonce + ">>>"@;
    let needle = "<<<ENDFILE"@;
    let head = "<<<FILE "@ + inject::label_attrs(label) + " nonce="@ + nonce + ">>>\n"@;
    let safe = inject::scrubbed(body);
    let at = block.len() - close.len();
    assert(block =~= head + safe + seq!['\n'] + close);
    assert(at == head.len() + safe.len() + 1);
    assert(block.subrange(at, at + 10) =~= needle);
    assert(search::occurs_at(block, needle, at));
    assert forall|j: int| 0 <= j < at implies !search::occurs_at(block, needle, j) by {
        if search::occurs_at(block, needle, j) {
            let found = block.subrange(j, j + 10);
            assert(found[0] == block[j] && found[1] == block[j + 1] && found[2] == block[j + 2]
                && found[3] == block[j + 3]);
            if j < head.len() {
                let attrs = inject::label_attrs(label);
                assert(block[j] == head[j]);
                if j >= 3 {
                    assert(head[j] != '<') by {
                        lemma_head_bracket(attrs, nonce, j);
                    }
                } else if j == 0 {
                    assert(block[3] == head[3]);
                } else {
                    assert(block[3] == head[3]);
                }
            } else if j + 10 <= head.len() + safe.len() {
                assert(safe.subrange(j - head.len(), j - head.len() + 10) =~= found);
                assert(search::occurs_at(safe, needle, j - head.len()));
            } else {
                let k = head.len() + safe.len() - j;
                assert(found[k] == block[head.len() + safe.len() as int]);
                assert(found[k] == '\n');
            }
        }
    }
    search::lemma_index_unique(block, needle, at);
}

/// Past its first three characters, the first line of a block has no opening
/// angle bracket.
proof fn lemma_head_bracket(attrs: Seq<char>, nonce: Seq<char>, j: int)
    requires
        without_bracket(attrs),
        without_bracket(nonce),
        3 <= j < ("<<<FILE "@ + attrs + " nonce="@ + nonce + ">>>\n"@).len(),
    ensures
        ("<<<FILE "@ + attrs + " nonce="@ + nonce + ">>>\n"@)[j] != '<',
{
    reveal_strlit("<<<FILE ");
    reveal_strlit(" nonce=");
    reveal_strlit(">>>\n");
    let a = "<<<FILE "@;
    let b = a + attrs;
    let c = b + " nonce="@;
    let d = c + nonce;
    let e = d + ">>>\n"@;
    if j < a.len() {
        assert(e[j] == a[j]);
    } else if j < b.len() {
        assert(e[j] == attrs[j - a.len()]);
    } else if j < c.len() {
        assert(e[j] == " nonce="@[j - b.len()]);
    } else if j < d.len() {
        assert(e[j] == nonce[j - c.len()]);
    } else {
        assert(e[j] == ">>>\n"@[j - d.len()]);
    }
}

/// A display name puts neither quotes nor angle brackets nor control
/// characters into a fence.
pub proof fn law_display_names_are_harmless(name: Seq<char>)
    ensures
        forall|i: int|
            0 <= i < name.filter(inject::attr_chars()).len() ==> inject::attr_char(
                #[trigger] name.filter(inject::attr_chars())[i],
            ),
{
    let p = inject::attr_chars();
    assert forall|i: int| 0 <= i < name.filter(p).len() implies inject::attr_char(
        #[trigger] name.filter(p)[i],
    ) by {
        name.lemma_filter_pred(p, i);
    }
}

/// The attributes of a user have no opening angle bracket, whatever the display
/// name is.
pub proof fn law_user_fences_hold(
    id: Seq<char>,
    login: Option<Seq<char>>,
    display_name: Option<Seq<char>>,
)
    requires
        without_bracket(id),
        login is Some ==> without_bracket(login->0),
    ensures
        without_bracket(inject::label_attrs(LabelModel::User { id, login, display_name })),
{
    reveal_strlit("kind=user id=");
    reveal_strlit(" login=");
    reveal_strlit(" name=\"");
    reveal_strlit("\"");
    if display_name is Some {
        law_display_names_are_harmless(display_name->0);
    }
    let a = "kind=user id="@ + id;
    let b = inject::login_attr(login);
    let c = inject::name_attr(display_name);
    assert(without_bracket(c)) by {
        if display_name is Some && (display_name->0).len() > 0 {
            let name = (display_name->0).filter(inject::attr_chars());
            assert(without_bracket(name)) by {
                assert forall|i: int| 0 <= i < name.len() implies #[trigger] name[i] != '<' by {
                    assert(inject::attr_char(name[i]));
                }
            }
            assert(without_bracket(" name=\""@ + name));
        }
    }
    assert(without_bracket(a));
    assert(without_bracket(b));
    assert(without_bracket(a + b));
}

/// Whether no file of a list has one after it that should come before it.
pub open spec fn in_order(list: Seq<FileModel>, speaker: Seq<char>) -> bool {
    forall|i: int, j: int|
        0 <= i < j < list.len() ==> !inject::comes_before(
            #[trigger] list[j],
            #[trigger] list[i],
            speaker,
        )
}

/// A file goes into an ordered list at a place where the list stays ordered.
proof fn lemma_place(list: Seq<FileModel>, f: FileModel, speaker: Seq<char>)
    requires
        in_order(list, speaker),
    ensures
        ({
            let i = inject::place(list, f, speaker);
            0 <= i <= list.len() && in_order(list.insert(i, f), speaker)
        }),
{
    let p = inject::overtaken_by(f, speaker);
    lists::lemma_first_where(list, p);
    let at = inject::place(list, f, speaker);
    let r = list.insert(at, f);
    assert forall|i: int, j: int| 0 <= i < j < r.len() implies !inject::comes_before(
        #[trigger] r[j],
        #[trigger] r[i],
        speaker,
    ) by {
        let old_i = if i < at {
            i
        } else {
            i - 1
        };
        let old_j = if j < at {
            j
        } else {
            j - 1
        };
        if i != at && j != at {
            assert(r[i] == list[old_i] && r[j] == list[old_j]);
        } else if i == at {
            assert(r[j] == list[j - 1]);
            assert(p(list[at]));
            if j - 1 > at {
                assert(!inject::comes_before(list[j - 1], list[at], speaker));
            }
        } else {
            assert(r[i] == list[i]);
            assert(!p(list[i]));
        }
    }
}

/// The order in which files are read is an order, and it loses and adds no
/// file.
pub proof fn law_files_are_sorted(list: Seq<FileModel>, speaker: Seq<char>)
    ensures
        in_order(inject::ordered(list, speaker), speaker),
        inject::ordered(list, speaker).to_multiset() == list.to_multiset(),
        inject::ordered(list, speaker).len() == list.len(),
    decreases list.len(),
{
    broadcast use vstd::seq_lib::group_to_multiset_ensures;

    if list.len() > 0 {
        let front = inject::ordered(list.drop_last(), speaker);
        let f = list.last();
        law_files_are_sorted(list.drop_last(), speaker);
        lemma_place(front, f, speaker);
        assert(list.drop_last().push(f) =~= list);
    } else {
        assert(inject::ordered(list, speaker) =~= list);
    }
}

/// Where there is a file about the speaker, it is read first.
pub proof fn law_the_speaker_leads(list: Seq<FileModel>, speaker: Seq<char>, i: int)
    requires
        0 <= i < list.len(),
        inject::about_speaker(list[i], speaker),
    ensures
        inject::ordered(list, speaker).len() > 0,
        inject::about_speaker(inject::ordered(list, speaker)[0], speaker),
{
    broadcast use vstd::seq_lib::group_to_multiset_ensures;

    let r = inject::ordered(list, speaker);
    law_files_are_sorted(list, speaker);
    assert(list.contains(list[i]));
    assert(r.to_multiset().count(list[i]) > 0);
    assert(r.contains(list[i]));
    let k = choose|k: int| 0 <= k < r.len() && r[k] == list[i];
    if k > 0 {
        assert(!inject::comes_before(r[k], r[0], speaker));
    }
}

/// Blocks never take more than the room that there is for them.
pub proof fn law_blocks_fit(list: Seq<FileModel>, shelf: Shelf, nonce: Seq<char>, room: int)
    ensures
        inject::taken(inject::packed(list, shelf, nonce, room)) <= if room < 0 {
            0
        } else {
            room
        },
    decreases list.len(),
{
    if list.len() > 0 {
        match inject::label_on(shelf, list[0]) {
            None => {
                law_blocks_fit(list.drop_first(), shelf, nonce, room);
            },
            Some(label) => {
                let block = inject::fenced(label, nonce, list[0].body);
                let left = room - slice::utf8_len(block) - 1;
                if left >= 0 {
                    law_blocks_fit(list.drop_first(), shelf, nonce, left);
                    let rest = inject::packed(list.drop_first(), shelf, nonce, left);
                    lemma_taken_front(block, rest);
                }
            },
        }
    }
}

/// A block in front takes its own bytes and a line break.
proof fn lemma_taken_front(block: Seq<char>, rest: Seq<Seq<char>>)
    ensures
        inject::taken(seq![block] + rest) == slice::utf8_len(block) + 1 + inject::taken(rest),
    decreases rest.len(),
{
    let all = seq![block] + rest;
    if rest.len() == 0 {
        assert(all.drop_last() =~= Seq::<Seq<char>>::empty());
        assert(all.last() == block);
        assert(inject::taken(all.drop_last()) == 0);
        assert(inject::taken(rest) == 0);
    } else {
        assert(all.drop_last() =~= seq![block] + rest.drop_last());
        assert(all.last() == rest.last());
        lemma_taken_front(block, rest.drop_last());
    }
}

/// Where the blocks about the bot and its lore are within the budget, all
/// blocks together are.
pub proof fn law_the_budget_is_kept(
    opts: OptsModel,
    soul: Seq<char>,
    lore: Seq<char>,
    users: Seq<FileModel>,
    states: Seq<FileModel>,
)
    requires
        opts.room(soul, lore) >= 0,
    ensures
        slice::utf8_len(inject::fenced(LabelModel::Soul, opts.nonce, soul)) + slice::utf8_len(
            inject::fenced(LabelModel::Lore, opts.nonce, lore),
        ) + inject::taken(opts.user_blocks(soul, lore, users)) + inject::taken(
            opts.state_blocks(soul, lore, users, states),
        ) <= opts.inject_byte_budget,
{
    let room = opts.room(soul, lore);
    law_blocks_fit(opts.user_files(users), Shelf::Users, opts.nonce, room);
    law_blocks_fit(
        inject::ordered(states, Seq::empty()),
        Shelf::States,
        opts.nonce,
        room - inject::taken(opts.user_blocks(soul, lore, users)),
    );
}

/// In a chat turn, every file about a user that may go into the prompt is
/// about the speaker or about someone who wrote one of its lines.
pub proof fn law_lurkers_stay_out(opts: OptsModel, users: Seq<FileModel>, i: int)
    requires
        opts.chat_turn(),
        0 <= i < opts.user_files(users).len(),
    ensures
        ({
            let f = opts.user_files(users)[i];
            &&& f.username is Some
            &&& chars::ascii_lowered(f.username->0) == opts.speaker() || opts.mentioned().contains(
                chars::ascii_lowered(f.username->0),
            )
        }),
{
    broadcast use vstd::seq_lib::group_to_multiset_ensures;

    let p = inject::in_scope(opts.mentioned(), opts.speaker());
    let scope = users.filter(p);
    let r = opts.user_files(users);
    law_files_are_sorted(scope, opts.speaker());
    assert(r.contains(r[i]));
    assert(scope.to_multiset().count(r[i]) > 0);
    assert(scope.contains(r[i]));
    let k = choose|k: int| 0 <= k < scope.len() && scope[k] == r[i];
    users.lemma_filter_pred(p, k);
}

/// The lines of a section take no more bytes than there is room for, each with
/// its line break.
pub proof fn law_sections_fit(lines: Seq<Seq<char>>, room: int)
    ensures
        inject::taken(lines.skip(lines.len() - inject::newest_fitting(lines, room))) <= if room
            < 0 {
            0
        } else {
            room
        },
    decreases lines.len(),
{
    let n = inject::newest_fitting(lines, room);
    inject::lemma_newest_fitting(lines, room);
    if n == 0 {
        assert(lines.skip(lines.len() as int) =~= Seq::<Seq<char>>::empty());
    } else {
        let front = lines.drop_last();
        let left = room - slice::utf8_len(lines.last()) - 1;
        law_sections_fit(front, left);
        inject::lemma_newest_fitting(front, left);
        let chosen = lines.skip(lines.len() - n);
        assert(chosen.drop_last() =~= front.skip(front.len() - (n - 1)));
        assert(chosen.last() == lines.last());
    }
}

} // verus!
