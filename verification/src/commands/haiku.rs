//! Haikus about the chat.

use vstd::prelude::*;
use vstd::string::StringExecFns;

use super::wait_reply;
use crate::ai::chat_history;
use crate::ai::chat_history::{ChatHistoryEntry, EntryModel};
use crate::commands;
use crate::text::{chars, search, slice};

verus! {

/// Lines of chat that a haiku draws on.
pub const HAIKU_CONTEXT_MESSAGES: usize = 80;

/// Characters of a part of a haiku.
pub const HAIKU_LINE_MAX_CHARS: usize = 80;

/// Parts of a haiku.
pub const HAIKU_PARTS: usize = 3;

pub const HAIKU_SYSTEM_PROMPT: &'static str =
    "Du liest einen Twitch-Chat-Auszug und schreibst genau ein Haiku. Wähle intern ein salientes Thema aus dem Verlauf (erkläre die Wahl nicht). Antworte mit genau einer Zeile für Twitch: drei kurze Teile im 5-7-5-Silbenschema, getrennt durch \" / \" (Leerzeichen-Slash-Leerzeichen). Bei Deutsch ist die Silbenzählung näherungsweise. Kein Markdown, keine Anführungszeichen, keine erfundenen Chat-Ereignisse, keine Zusammenfassung oder Prosa.";

pub const EMPTY_HISTORY_MESSAGE: &'static str =
    "Ich habe noch keinen Chat-Verlauf für ein Haiku FDM";

pub const LLM_ERROR_MESSAGE: &'static str = "Da ist was schiefgelaufen FDM";

pub const LLM_TIMEOUT_MESSAGE: &'static str = "Das hat zu lange gedauert Waiting";

/// The texts that are not empty.
pub open spec fn not_empty() -> spec_fn(Seq<char>) -> bool {
    |s: Seq<char>| s.len() > 0
}

/// The parts of a text: what stands between slashes with a space on each side,
/// or, where there are none, its lines. Each is without white space around it,
/// and none is empty.
pub open spec fn parts(raw: Seq<char>) -> Seq<Seq<char>> {
    let sep = if search::contains(raw, " / "@) {
        " / "@
    } else {
        "\n"@
    };
    search::pieces(raw, sep).map_values(|p: Seq<char>| slice::trimmed(p)).filter(not_empty())
}

/// Whether a text may be a part of a haiku.
pub open spec fn good_part(part: Seq<char>) -> bool {
    &&& 0 < part.len() <= HAIKU_LINE_MAX_CHARS
    &&& !search::contains(part, "```"@)
    &&& !search::contains(part, "**"@)
    &&& !search::contains(part, "#"@)
    &&& !search::begins_with(chars::ascii_lowered(part), "icymi:"@)
    &&& !search::contains(chars::ascii_lowered(part), "in den letzten 24h:"@)
}

/// `s` in one line: with a space in place of each line break.
pub open spec fn in_line(s: Seq<char>) -> Seq<char> {
    s.map_values(|c: char| line_char(c))
}

/// A space in place of a line break.
pub open spec fn line_char(c: char) -> char {
    if c == '\n' || c == '\r' {
        ' '
    } else {
        c
    }
}

/// The haiku in a text, in one line. There is none where the text has not three
/// parts, or one of them is not good.
pub open spec fn haiku(raw: Seq<char>) -> Option<Seq<char>> {
    let p = parts(raw);
    if p.len() == HAIKU_PARTS && forall|i: int| 0 <= i < p.len() ==> good_part(#[trigger] p[i]) {
        Some(in_line(slice::joined(p, " / "@)))
    } else {
        None
    }
}

/// Whether a text may be a part of a haiku.
pub fn is_valid_haiku_part(part: &str) -> (b: bool)
    ensures
        b == good_part(part@),
{
    let n: usize = slice::chars_of(part).len();
    if n == 0 || n > HAIKU_LINE_MAX_CHARS {
        return false;
    }
    let lower = slice::to_ascii_lower(part);
    !search::has(part, "```") && !search::has(part, "**") && !search::has(part, "#")
        && !search::starts(lower.as_str(), "icymi:") && !search::has(
        lower.as_str(),
        "in den letzten 24h:",
    )
}

/// The parts of a text between separators.
fn parts_between(raw: &str, sep: &str) -> (r: Vec<String>)
    requires
        sep@.len() > 0,
    ensures
        slice::texts(r@) == search::pieces(raw@, sep@).map_values(
            |p: Seq<char>| slice::trimmed(p),
        ).filter(not_empty()),
{
    let all = search::split(raw, sep);
    let ghost goal = search::pieces(raw@, sep@).map_values(|p: Seq<char>| slice::trimmed(p));
    let ghost p = not_empty();
    let mut r: Vec<String> = Vec::new();
    let mut i: usize = 0;
    assert(slice::texts(r@) =~= goal.take(0).filter(p)) by {
        reveal(Seq::filter);
    }
    while i < all.len()
        invariant
            i <= all@.len(),
            slice::texts(all@) == search::pieces(raw@, sep@),
            goal == search::pieces(raw@, sep@).map_values(|p: Seq<char>| slice::trimmed(p)),
            p == not_empty(),
            slice::texts(r@) == goal.take(i as int).filter(p),
        decreases all@.len() - i,
    {
        let ghost before = slice::texts(r@);
        let ghost after = goal.take(i + 1);
        let t = slice::trim(all[i].as_str());
        assert(slice::texts(all@)[i as int] == all@[i as int]@);
        assert(after.drop_last() =~= goal.take(i as int));
        assert(after.last() == t@);
        assert(after.filter(p) == if p(after.last()) {
            goal.take(i as int).filter(p).push(after.last())
        } else {
            goal.take(i as int).filter(p)
        }) by {
            reveal(Seq::filter);
        }
        if !t.as_str().is_empty() {
            r.push(t);
            assert(slice::texts(r@) =~= before.push(t@));
        }
        i = i + 1;
    }
    assert(goal.take(i as int) =~= goal);
    r
}

/// `s` in one line.
fn to_line(s: &str) -> (r: String)
    ensures
        r@ == in_line(s@),
{
    let v = slice::chars_of(s);
    let mut r = String::new();
    let mut i: usize = 0;
    while i < v.len()
        invariant
            i <= v@.len(),
            v@ == s@,
            r@ == in_line(s@).take(i as int),
        decreases v@.len() - i,
    {
        r.push(if v[i] == '\n' || v[i] == '\r' { ' ' } else { v[i] });
        assert(in_line(s@).take(i + 1) =~= in_line(s@).take(i as int).push(in_line(s@)[i as int]));
        i = i + 1;
    }
    assert(in_line(s@).take(i as int) =~= in_line(s@));
    r
}

/// The haiku in a text, in one line.
pub fn format_haiku_for_chat(raw: &str) -> (r: Option<String>)
    ensures
        slice::opt_text(r) == haiku(raw@),
{
    proof {
        reveal_strlit(" / ");
        reveal_strlit("\n");
    }
    let all = if search::has(raw, " / ") {
        parts_between(raw, " / ")
    } else {
        parts_between(raw, "\n")
    };
    let ghost p = parts(raw@);
    assert(slice::texts(all@) == p);
    if all.len() != HAIKU_PARTS {
        return None;
    }
    let mut i: usize = 0;
    while i < all.len()
        invariant
            i <= all@.len(),
            slice::texts(all@) == p,
            p == parts(raw@),
            forall|j: int| 0 <= j < i ==> good_part(#[trigger] p[j]),
        decreases all@.len() - i,
    {
        assert(p[i as int] == all@[i as int]@);
        if !is_valid_haiku_part(all[i].as_str()) {
            return None;
        }
        i = i + 1;
    }
    Some(to_line(slice::join(&all, " / ").as_str()))
}

/// Whether a line is the call of the command itself.
pub open spec fn is_call(e: EntryModel, user: Seq<char>, message: Seq<char>) -> bool {
    chars::same_ignoring_case(e.username, user) && chars::same_ignoring_case(e.text, message)
}

/// The chat without the call of the command, where that is its last line.
pub open spec fn before_call(
    entries: Seq<EntryModel>,
    user: Seq<char>,
    message: Seq<char>,
) -> Seq<EntryModel> {
    if entries.len() > 0 && is_call(entries.last(), user, message) {
        entries.drop_last()
    } else {
        entries
    }
}

/// The newest lines, as many as a haiku draws on.
pub open spec fn newest(entries: Seq<EntryModel>) -> Seq<EntryModel> {
    if entries.len() <= HAIKU_CONTEXT_MESSAGES {
        entries
    } else {
        entries.skip(entries.len() - HAIKU_CONTEXT_MESSAGES)
    }
}

/// A line of chat as the model reads it.
pub open spec fn line(e: EntryModel) -> Seq<char> {
    e.username + ": "@ + e.text
}

/// The lines that a haiku draws on. There are none where nothing was said.
pub open spec fn material(
    entries: Option<Seq<EntryModel>>,
    user: Seq<char>,
    message: Seq<char>,
) -> Option<Seq<Seq<char>>> {
    match entries {
        None => None,
        Some(all) => {
            let said = before_call(all, user, message);
            if said.len() == 0 {
                None
            } else {
                Some(newest(said).map_values(|e: EntryModel| line(e)))
            }
        },
    }
}

/// The lines of an optional chat.
pub open spec fn chat_lines(o: Option<&Vec<ChatHistoryEntry>>) -> Option<Seq<EntryModel>> {
    match o {
        Some(v) => Some(chat_history::entries(v@)),
        None => None,
    }
}

/// The lines that a haiku draws on.
pub fn relevant_history(
    history: Option<&Vec<ChatHistoryEntry>>,
    user: &str,
    current_message: &str,
) -> (r: Option<Vec<String>>)
    ensures
        match r {
            Some(v) => material(chat_lines(history), user@, current_message@) == Some(
                slice::texts(v@),
            ),
            None => material(chat_lines(history), user@, current_message@) is None,
        },
{
    let entries = match history {
        Some(v) => v,
        None => {
            return None;
        },
    };
    let ghost all = chat_history::entries(entries@);
    let mut end: usize = entries.len();
    if end > 0 {
        let last = &entries[end - 1];
        assert(all.last() == last@);
        if slice::eq_ignoring_case(last.username.as_str(), user) && slice::eq_ignoring_case(
            last.text.as_str(),
            current_message,
        ) {
            end = end - 1;
        }
    }
    let ghost said = before_call(all, user@, current_message@);
    assert(said =~= all.take(end as int));
    if end == 0 {
        return None;
    }
    let start: usize = if end > HAIKU_CONTEXT_MESSAGES {
        end - HAIKU_CONTEXT_MESSAGES
    } else {
        0
    };
    let mut r: Vec<String> = Vec::new();
    let mut i: usize = start;
    while i < end
        invariant
            start <= i <= end <= entries@.len(),
            all == chat_history::entries(entries@),
            r@.len() == i - start,
            forall|j: int| 0 <= j < r@.len() ==> (#[trigger] r@[j])@ == line(all[start + j]),
        decreases end - i,
    {
        let e = &entries[i];
        assert(all[i as int] == e@);
        let mut text = e.username.clone();
        text.append(": ");
        text.append(e.text.as_str());
        r.push(text);
        i = i + 1;
    }
    assert(slice::texts(r@) =~= newest(said).map_values(|e: EntryModel| line(e)));
    Some(r)
}

/// How a call of the command begins.
#[derive(Debug)]
pub enum HaikuOpening {
    /// With an answer and nothing more.
    Reply(String),
    /// With a question to the model.
    Ask(String),
}

/// What an opening holds.
pub enum OpeningModel {
    Reply(Seq<char>),
    Ask(Seq<char>),
}

impl View for HaikuOpening {
    type V = OpeningModel;

    open spec fn view(&self) -> OpeningModel {
        match *self {
            HaikuOpening::Reply(s) => OpeningModel::Reply(s@),
            HaikuOpening::Ask(s) => OpeningModel::Ask(s@),
        }
    }
}

/// How a call of the command begins.
pub open spec fn opening(
    remaining: Option<Seq<char>>,
    material: Option<Seq<Seq<char>>>,
) -> OpeningModel {
    match (remaining, material) {
        (Some(r), _) => OpeningModel::Reply(commands::wait_text(r)),
        (None, None) => OpeningModel::Reply(EMPTY_HISTORY_MESSAGE@),
        (None, Some(lines)) => OpeningModel::Ask(
            "Schreibe ein Haiku zu einem Thema aus diesem Twitch-Chat.\n"@ + slice::joined(
                lines,
                "\n"@,
            ),
        ),
    }
}

/// How a call of the command begins, for a user who has to wait as long as
/// `remaining` says.
pub fn open_haiku(
    remaining: Option<&str>,
    history: Option<&Vec<ChatHistoryEntry>>,
    user: &str,
    current_message: &str,
) -> (r: HaikuOpening)
    ensures
        r@ == opening(
            slice::opt_str(remaining),
            material(chat_lines(history), user@, current_message@),
        ),
{
    if let Some(rest) = remaining {
        return HaikuOpening::Reply(wait_reply(rest));
    }
    match relevant_history(history, user, current_message) {
        None => HaikuOpening::Reply(EMPTY_HISTORY_MESSAGE.to_owned()),
        Some(lines) => {
            let mut text = "Schreibe ein Haiku zu einem Thema aus diesem Twitch-Chat.\n".to_owned();
            text.append(slice::join(&lines, "\n").as_str());
            HaikuOpening::Ask(text)
        },
    }
}

/// How the model answered.
#[derive(Debug)]
pub enum HaikuOutcome {
    Text(String),
    Failed,
    TimedOut,
}

/// What the user is answered.
pub open spec fn answer(outcome: HaikuOutcome) -> Seq<char> {
    match outcome {
        HaikuOutcome::Text(text) => match haiku(slice::trimmed(text@)) {
            Some(h) => h,
            None => LLM_ERROR_MESSAGE@,
        },
        HaikuOutcome::Failed => LLM_ERROR_MESSAGE@,
        HaikuOutcome::TimedOut => LLM_TIMEOUT_MESSAGE@,
    }
}

/// What the user is answered.
pub fn haiku_reply(outcome: &HaikuOutcome) -> (r: String)
    ensures
        r@ == answer(*outcome),
{
    match outcome {
        HaikuOutcome::Text(text) => match format_haiku_for_chat(slice::trim(text.as_str()).as_str()) {
            Some(h) => h,
            None => LLM_ERROR_MESSAGE.to_owned(),
        },
        HaikuOutcome::Failed => LLM_ERROR_MESSAGE.to_owned(),
        HaikuOutcome::TimedOut => LLM_TIMEOUT_MESSAGE.to_owned(),
    }
}

/// A haiku is three good parts between slashes, and nothing else, in one line.
pub proof fn law_haikus_have_three_parts(raw: Seq<char>)
    requires
        haiku(raw) is Some,
    ensures
        ({
            let p = parts(raw);
            &&& p.len() == 3
            &&& good_part(p[0]) && good_part(p[1]) && good_part(p[2])
            &&& haiku(raw)->0 == in_line(p[0]) + " / "@ + in_line(p[1]) + " / "@ + in_line(p[2])
        }),
        !(haiku(raw)->0).contains('\n'),
        !(haiku(raw)->0).contains('\r'),
{
    reveal_strlit(" / ");
    let p = parts(raw);
    let two = p.drop_last();
    let one = two.drop_last();
    assert(slice::joined(one, " / "@) == p[0]);
    assert(slice::joined(two, " / "@) == p[0] + " / "@ + p[1]);
    let all = slice::joined(p, " / "@);
    assert(all == p[0] + " / "@ + p[1] + " / "@ + p[2]);
    let line = haiku(raw)->0;
    assert(line =~= in_line(p[0]) + " / "@ + in_line(p[1]) + " / "@ + in_line(p[2]));
    assert forall|i: int| 0 <= i < line.len() implies line[i] != '\n' && line[i] != '\r' by {
        assert(line[i] == line_char(all[i]));
    }
}

/// A haiku draws on no more lines than it may, and on the newest.
pub proof fn law_haikus_draw_on_the_newest(entries: Seq<EntryModel>)
    ensures
        newest(entries).len() <= HAIKU_CONTEXT_MESSAGES,
        entries.len() > 0 ==> newest(entries).len() > 0 && newest(entries).last() == entries.last(),
{
}

} // verus!
