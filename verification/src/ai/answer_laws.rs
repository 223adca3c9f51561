//! What holds of calls of the language model: how they begin, what goes into them and
//! what becomes of the answer.

use vstd::prelude::*;

use super::chat_history;
use super::command;
use super::command::{AgentOutcome, OpeningModel, Role, ToolRoute, Turn};
use super::memory::inject;
use super::memory::inject::{FileModel, LabelModel};
use super::memory::ritual;
use super::memory::ritual::RitualJob;
use super::model_catalog;
use super::model_catalog::CatalogModel;
use crate::berlin;
use crate::berlin::LocalInstants;
use crate::json;
use crate::json::JsonModel;
use crate::settings::{ConnectionModel, DreamerModel};
use crate::text::{chars, search, slice};
use crate::time;
use crate::time::{Moment, TimeOfDay, Timestamp};

verus! {

/// The prompt of a turn is built for the one who speaks, with the nonce, the budget
/// and the names of the turn, and in the channel in which the bot was addressed.
pub proof fn law_turns_are_their_own(turn: Turn)
    ensures
        ({
            let o = turn.opts();
            &&& o.speaker_login == turn.speaker.login@
            &&& o.nonce == turn.prompt_nonce@
            &&& o.inject_byte_budget == turn.inject_byte_budget
            &&& o.bot_login == turn.bot_username@
            &&& o.persona_name == turn.persona_name@
            &&& turn.chat is None ==> o.primary_history is None && o.ai_channel_history is None
                && o.invocation_channel is Primary
            &&& turn.chat matches Some(c) ==> {
                &&& o.primary_history == Some(chat_history::entries(c.primary_history@))
                &&& o.primary_login == c.primary_login@
                &&& c.ai_channel_history matches Some(h) ==> o.ai_channel_history == Some(
                    chat_history::entries(h@),
                )
                &&& c.ai_channel_history is None ==> o.ai_channel_history is None
                &&& o.invocation_channel is AiChannel <==> c.ai_channel_login is Some
                    && c.ai_channel_login->0@ == turn.channel_login@
            }
        }),
{
}

/// What is remembered and what was said lately go into the turn as they are, each
/// into its own part.
pub proof fn law_turns_hold_the_memory(
    turn: Turn,
    soul: Seq<char>,
    lore: Seq<char>,
    users: Seq<FileModel>,
    states: Seq<FileModel>,
)
    ensures
        ({
            let parts = turn.parts(soul, lore, users, states);
            let context = turn.opts().context(soul, lore, users, states);
            &&& parts.durable_memory == context.durable_memory
            &&& parts.volatile_state == context.volatile_state
            &&& parts.recent_chat == context.recent_chat
            &&& inject::fenced(LabelModel::Soul, turn.prompt_nonce@, soul).is_prefix_of(
                parts.durable_memory,
            )
        }),
{
    super::memory::context_laws::law_the_bot_comes_first(turn.opts(), soul, lore, users, states);
    let a = inject::fenced(LabelModel::Soul, turn.prompt_nonce@, soul);
    let b = inject::fenced(LabelModel::Lore, turn.prompt_nonce@, lore);
    assert(a.is_prefix_of(a + "\n"@ + b));
}

/// The highest of a user's badges makes the role.
pub proof fn law_roles(badges: Seq<Seq<char>>)
    ensures
        badges.contains("broadcaster"@) <==> command::role_of(badges) is Broadcaster,
        badges.contains("moderator"@) && !badges.contains("broadcaster"@) <==> command::role_of(
            badges,
        ) is Moderator,
        Role::Broadcaster.word() == "broadcaster"@,
        Role::Moderator.word() == "moderator"@,
        Role::Regular.word() == "regular"@,
{
}

/// A user who has to wait is told how long, whatever they ask.
pub proof fn law_waiting_users_are_put_off(
    trigger: Seq<char>,
    args: Seq<Seq<char>>,
    replies: bool,
    remaining: Seq<char>,
)
    ensures
        command::opening(trigger, args, replies, Some(remaining)) == OpeningModel::Reply(
            "Bitte warte noch "@ + remaining + " Waiting"@,
        ),
{
}

/// Who asks nothing is told how to ask, unless the second name answers a message.
pub proof fn law_empty_questions(trigger: Seq<char>, replies: bool)
    ensures
        ({
            let grok = chars::same_ignoring_case(trigger, "@grok"@);
            let o = command::opening(trigger, Seq::empty(), replies, None);
            &&& !grok ==> o == OpeningModel::Reply("Benutzung: !ai <anweisung>"@)
            &&& grok && !replies ==> o == OpeningModel::Reply("Benutzung: @grok <anweisung>"@)
            &&& grok && replies ==> o == OpeningModel::Ask(
                "Prüfe die Reply-Nachricht, ordne sie ein und antworte kurz im Twitch-Chat-Stil."@,
            )
        }),
{
    assert(slice::joined(Seq::<Seq<char>>::empty(), " "@).len() == 0);
    assert(slice::trimmed(slice::joined(Seq::<Seq<char>>::empty(), " "@)).len() == 0);
}

/// An answer that begins with a marker of its kind reaches the user without the
/// marker and all that stands before the bar.
#[verifier::spinoff_prover]
#[verifier::rlimit(60)]
pub proof fn law_marked_answers_lose_the_marker(x: Seq<char>, rest: Seq<char>)
    requires
        x.len() > 0,
        !chars::white_space(x[0]),
        !x.contains('|'),
    ensures
        command::cleaned("thought "@ + x + "|"@ + rest) == slice::trimmed_start(rest),
        command::cleaned("analysis "@ + x + "|"@ + rest) == slice::trimmed_start(rest),
        command::cleaned("final "@ + x + "|"@ + rest) == slice::trimmed_start(rest),
{
    reveal_strlit("thought ");
    reveal_strlit("thought");
    reveal_strlit("analysis ");
    reveal_strlit("analysis");
    reveal_strlit("final ");
    reveal_strlit("final");
    assert("thought "@ =~= "thought"@ + seq![' ']);
    assert("analysis "@ =~= "analysis"@ + seq![' ']);
    assert("final "@ =~= "final"@ + seq![' ']);
    lemma_after_marker("thought"@, x, rest);
    lemma_after_marker("analysis"@, x, rest);
    lemma_after_marker("final"@, x, rest);
    let a = "analysis "@ + x + "|"@ + rest;
    let f = "final "@ + x + "|"@ + rest;
    lemma_other_marker(a, "thought"@);
    lemma_other_marker(f, "thought"@);
    lemma_other_marker(f, "analysis"@);
}

#[verifier::spinoff_prover]
#[verifier::rlimit(60)]
proof fn lemma_after_marker(marker: Seq<char>, x: Seq<char>, rest: Seq<char>)
    requires
        marker.len() > 0,
        !chars::white_space(marker[0]),
        x.len() > 0,
        !chars::white_space(x[0]),
        !x.contains('|'),
    ensures
        ({
            let text = marker + seq![' '] + x + "|"@ + rest;
            &&& slice::trimmed_start(text) == text
            &&& command::after_marker(text, marker) == Some(slice::trimmed_start(rest))
        }),
{
    reveal_strlit("|");
    let text = marker + seq![' '] + x + "|"@ + rest;
    let tail = x + "|"@ + rest;
    assert(text[0] == marker[0]);
    assert(text.take(marker.len() as int) =~= marker);
    assert(text[marker.len() as int] == ' ');
    assert(text.skip(marker.len() as int) =~= seq![' '] + tail);
    let spaced = seq![' '] + tail;
    assert(spaced.drop_first() =~= tail);
    assert(tail[0] == x[0]);
    assert(slice::trimmed_start(tail) == tail);
    assert(slice::trimmed_start(spaced) == tail);
    assert(tail.subrange(x.len() as int, (x.len() + 1) as int) =~= "|"@);
    assert(search::occurs_at(tail, "|"@, x.len() as int));
    assert forall|j: int| 0 <= j < x.len() implies !search::occurs_at(tail, "|"@, j) by {
        if search::occurs_at(tail, "|"@, j) {
            assert(tail.subrange(j, j + 1)[0] == tail[j]);
            assert(x[j] == '|');
        }
    }
    search::lemma_index_unique(tail, "|"@, x.len() as int);
    assert(tail.skip((x.len() + 1) as int) =~= rest);
}

proof fn lemma_other_marker(text: Seq<char>, marker: Seq<char>)
    requires
        text.len() > 0,
        marker.len() > 0,
        chars::lower_char(text[0]) != chars::lower_char(marker[0]),
    ensures
        command::after_marker(text, marker) is None,
{
    if marker.len() < text.len() {
        let head = text.take(marker.len() as int);
        assert(chars::ascii_lowered(head)[0] == chars::lower_char(text[0]));
        assert(chars::ascii_lowered(marker)[0] == chars::lower_char(marker[0]));
    }
}

/// A tool is carried out by those who offer it, and one that is not at hand by
/// nobody.
pub proof fn law_tools_go_where_they_belong(emotes: bool, web: bool)
    ensures
        command::routed("doener_index"@, emotes, web) is Doener,
        command::routed("search_emotes"@, emotes, web) == if emotes {
            ToolRoute::Emotes
        } else {
            ToolRoute::Unknown
        },
        command::routed("web_search"@, emotes, web) == if web {
            ToolRoute::Web
        } else {
            ToolRoute::Unknown
        },
        command::routed("read_url"@, emotes, web) == if web {
            ToolRoute::Web
        } else {
            ToolRoute::Unknown
        },
        forall|name: Seq<char>|
            name != "doener_index"@ && name != "search_emotes"@ && name != "web_search"@ && name
                != "read_url"@ ==> #[trigger] command::routed(name, emotes, web) is ChatTurn,
{
    reveal_strlit("doener_index");
    reveal_strlit("search_emotes");
    reveal_strlit("web_search");
    reveal_strlit("read_url");
    assert("doener_index"@.len() == 12);
    assert("search_emotes"@.len() == 13);
    assert("web_search"@.len() == 10);
    assert("read_url"@.len() == 8);
}

/// A user is told of an empty account, of too many requests and of a broken setup,
/// and of no other failure.
pub proof fn law_failures_are_told(status: u16)
    ensures
        status == 402 ==> command::failure_text(status) == Some("KI-Konto leer FeelsBadMan"@),
        status == 429 ==> command::failure_text(status) == Some("KI gerade rate-limited Stare"@),
        status == 401 || status == 403 ==> command::failure_text(status) == Some(
            "KI-Konfiguration kaputt FeelsBadMan"@,
        ),
        command::failure_text(status) is Some ==> status == 401 || status == 402 || status == 403
            || status == 429,
{
}

/// An answer is said, remembered where there is a chat, and written down in the main
/// channel only. Nothing else is remembered or written down.
pub proof fn law_turns_end(outcome: AgentOutcome, has_chat: bool, second_channel: bool)
    ensures
        ({
            let end = command::turn_end(outcome, has_chat, second_channel);
            &&& end.remember ==> has_chat && outcome is Text && end.reply is Some
            &&& end.transcribe ==> !second_channel && outcome is Text && end.reply is Some
            &&& outcome matches AgentOutcome::Text(text) ==> {
                let said = command::cleaned(text@);
                &&& said.len() > 0 ==> end.reply == Some(said) && end.remember == has_chat
                    && end.transcribe == !second_channel
                &&& said.len() == 0 ==> end.reply is None
            }
            &&& outcome matches AgentOutcome::ProviderError(status) ==> end.reply
                == command::failure_text(status)
            &&& outcome is Timeout || outcome is MaxRoundsExceeded || outcome is OtherError
                ==> end.reply is None
        }),
{
}

/// The ritual asks the model of its own settings where there is one and else that of
/// the connection, and so for the effort and the tier.
pub proof fn law_rituals_prefer_their_own_settings(
    job: RitualJob,
    nonce: Seq<char>,
    dreamer: DreamerModel,
    connection: ConnectionModel,
)
    ensures
        ({
            let r = job.request(nonce, dreamer, connection);
            &&& dreamer.model is Some ==> r.model == dreamer.model->0
            &&& dreamer.model is None ==> r.model == connection.model
            &&& dreamer.reasoning_effort is Some ==> r.reasoning_effort == dreamer.reasoning_effort
            &&& dreamer.reasoning_effort is None ==> r.reasoning_effort
                == connection.reasoning_effort
            &&& dreamer.service_tier is Some ==> r.service_tier == dreamer.service_tier
            &&& dreamer.service_tier is None ==> r.service_tier == connection.service_tier
            &&& r.user == "revise."@
        }),
{
}

/// The ritual reads the transcript of the day that is over, at the end of its
/// prompt.
#[verifier::spinoff_prover]
#[verifier::rlimit(60)]
pub proof fn law_rituals_read_the_transcript(
    job: RitualJob,
    nonce: Seq<char>,
    dreamer: DreamerModel,
    connection: ConnectionModel,
)
    requires
        !search::contains(job.transcript@, "<<<FILE"@),
        !search::contains(job.transcript@, "<<<ENDFILE"@),
    ensures
        ("\n<<<FILE kind=transcript date="@ + time::utc_date_text(job.rotate_to.days * 86_400)
            + " nonce="@ + nonce + ">>>\n"@ + job.transcript@ + "\n<<<ENDFILE nonce="@ + nonce
            + ">>>"@).is_suffix_of(job.request(nonce, dreamer, connection).system),
{
    reveal_strlit("\n<<<FILE kind=transcript date=");
    reveal_strlit("\n");
    reveal_strlit("<<<FILE ");
    reveal_strlit("kind=transcript date=");
    assert("\n<<<FILE kind=transcript date="@ =~= "\n"@ + ("<<<FILE "@ + "kind=transcript date="@));
    let date = time::utc_date_text(job.rotate_to.days * 86_400);
    let block = inject::fenced(LabelModel::Transcript { date }, nonce, job.transcript@);
    let end = "\n<<<FILE kind=transcript date="@ + date + " nonce="@ + nonce + ">>>\n"@
        + job.transcript@ + "\n<<<ENDFILE nonce="@ + nonce + ">>>"@;
    lemma_block("\n"@, "<<<FILE "@, "kind=transcript date="@, date, " nonce="@, nonce, ">>>\n"@,
        job.transcript@, "\n<<<ENDFILE nonce="@, ">>>"@);
    assert("\n"@ + block == end);
    let context = ritual::ritual_opts(job.inject_byte_budget, nonce).context(
        job.store.soul@,
        job.store.lore@,
        inject::files(job.store.users@),
        inject::files(job.store.states@),
    );
    let head = inject::substituted(
        job.template@,
        ritual::ritual_vars(job.channel@, berlin::local_date_text(job.now.spec_secs())),
    ) + "\n\n"@ + ritual::memory_block(context);
    assert(job.prompt(nonce) =~= head + end);
}

#[verifier::spinoff_prover]
#[verifier::rlimit(60)]
proof fn lemma_block(
    a: Seq<char>,
    b: Seq<char>,
    c: Seq<char>,
    d: Seq<char>,
    e: Seq<char>,
    f: Seq<char>,
    g: Seq<char>,
    h: Seq<char>,
    i: Seq<char>,
    j: Seq<char>,
)
    ensures
        a + (b + (c + d) + e + f + g + h + i + f + j) == a + (b + c) + d + e + f + g + h + i + f
            + j,
{
    assert(a + (b + (c + d) + e + f + g + h + i + f + j) =~= a + (b + c) + d + e + f + g + h + i
        + f + j);
}

/// The ritual runs today where its time is still to come, and else tomorrow.
pub proof fn law_rituals_run_at_the_next_time(now: Timestamp, at: TimeOfDay)
    ensures
        ({
            let today = berlin::local_day_of(now.spec_secs());
            let a = ritual::run_instant(today, at);
            let b = ritual::run_instant(today + 1, at);
            let next = ritual::next_instant(now, at);
            &&& a is Some && a->0 > now.ticks ==> next == a
            &&& a is None || a->0 <= now.ticks ==> next == b
        }),
{
}

/// A catalog is fresh for five minutes. After a failure none is fetched for one
/// minute.
pub proof fn law_catalogs_last(c: CatalogModel, now: Moment)
    ensures
        ({
            let old = c.entry is None || now.nanos > (c.entry->0).1.nanos + 300_000_000_000;
            let failed = c.failed_at is Some && now.nanos < c.failed_at->0.nanos + 60_000_000_000;
            &&& c.step(now) is Fetch <==> old && !failed
            &&& c.step(now) is BackedOff <==> failed && c.entry is None
        }),
{
}

/// A model is shown under the name that the catalog has for it, without the mark of
/// a free model.
pub proof fn law_models_are_shown_by_name(
    c: CatalogModel,
    conn: ConnectionModel,
    id: Seq<char>,
    name: Seq<char>,
    fetched_at: Moment,
    by_id: Map<Seq<char>, Seq<char>>,
)
    requires
        c.entry == Some((by_id, fetched_at)),
        by_id.contains_key(id),
        by_id[id] == name || by_id[id] == name + " (free)"@,
        name.len() > 0,
        slice::trimmed(name) == name,
        !search::finishes_with(name, " (free)"@),
        !search::contains(name, ": "@),
        conn.backend is OpenAi,
        conn.base_url is None,
    ensures
        c.shown_name(conn, id, true) == name,
        c.shown_name(conn, id, false) == id,
{
    reveal_strlit(" (free)");
    model_catalog::law_plain_names_stay(name);
    let free = name + " (free)"@;
    slice::lemma_trimmed(name);
    assert(free[0] == name[0] && free.last() == ')');
    assert(slice::trimmed_start(free) == free);
    assert(slice::trimmed_end(free) == free);
    assert(search::finishes_with(free, " (free)"@)) by {
        assert(free.subrange(free.len() - 7, free.len() as int) =~= " (free)"@);
    }
    assert(free.take(free.len() - " (free)"@.len()) =~= name);
    search::lemma_replaced_absent(name, ": "@, " "@);
}

/// The colon behind the maker of a model is left out of its name.
pub proof fn law_makers_stand_without_a_colon(maker: Seq<char>, name: Seq<char>)
    requires
        maker.len() > 0 && name.len() > 0,
        !chars::white_space(maker[0]),
        !chars::white_space(name.last()),
        !maker.contains(':'),
        !name.contains(':'),
        name.last() != ')',
    ensures
        model_catalog::normalized(maker + ": "@ + name) == maker + " "@ + name,
{
    reveal_strlit(": ");
    reveal_strlit(" (free)");
    let whole = maker + ": "@ + name;
    assert(whole[0] == maker[0]);
    assert(whole.last() == name.last());
    assert(slice::trimmed_start(whole) == whole);
    assert(slice::trimmed_end(whole) == whole);
    if search::finishes_with(whole, " (free)"@) {
        assert(whole.subrange(whole.len() - 7, whole.len() as int).last() == whole.last());
    }
    lemma_colon(maker, name);
}

proof fn lemma_colon(maker: Seq<char>, name: Seq<char>)
    requires
        !maker.contains(':'),
        !name.contains(':'),
    ensures
        search::replaced(maker + ": "@ + name, ": "@, " "@) == maker + " "@ + name,
    decreases maker.len(),
{
    reveal_strlit(": ");
    let whole = maker + ": "@ + name;
    if maker.len() == 0 {
        assert(whole.subrange(0, 2) =~= ": "@);
        assert(whole.skip(2) =~= name);
        assert(!search::contains(name, ": "@)) by {
            if search::contains(name, ": "@) {
                let i = choose|i: int| search::occurs_at(name, ": "@, i);
                assert(name.subrange(i, i + 2)[0] == name[i]);
            }
        }
        search::lemma_replaced_absent(name, ": "@, " "@);
        assert(maker + " "@ + name =~= " "@ + name);
    } else {
        let rest = maker.drop_first();
        assert(whole[0] == maker[0]);
        if search::begins_with(whole, ": "@) {
            assert(whole.subrange(0, 2)[0] == whole[0]);
            assert(maker.contains(maker[0]));
        }
        assert forall|i: int| 0 <= i < rest.len() implies rest[i] != ':' by {
            assert(rest[i] == maker[i + 1]);
        }
        assert(whole.drop_first() =~= rest + ": "@ + name);
        lemma_colon(rest, name);
        assert(maker + " "@ + name =~= seq![maker[0]] + (rest + " "@ + name));
    }
}

/// A time of day on a Berlin day is the instant at which the clock shows it, the first
/// of two. Where the clocks jump over it, it is an hour later.
pub proof fn law_times_of_day(day: int, at: TimeOfDay)
    ensures
        ({
            let local = day * 86_400 + at.nanos as int / 1_000_000_000;
            let rest = at.nanos as int % 1_000_000_000;
            let r = ritual::run_instant(day, at);
            &&& berlin::instants_of(local) matches LocalInstants::Single(t) ==> r == Some(
                t * 2_000_000_000 + rest,
            )
            &&& berlin::instants_of(local) matches LocalInstants::Fold(a, b) ==> r == Some(
                a * 2_000_000_000 + rest,
            )
            &&& berlin::instants_of(local) is Gap ==> {
                &&& berlin::instants_of(local + 3_600) matches LocalInstants::Single(t) ==> r
                    == Some(t * 2_000_000_000 + rest)
                &&& !(berlin::instants_of(local + 3_600) is Single) ==> r is None
            }
        }),
{
}

/// The ritual speaks as the dreamer, of its channel and of today, and reads what lasts
/// before what changes.
#[verifier::spinoff_prover]
#[verifier::rlimit(60)]
pub proof fn law_rituals_read_the_memory(job: RitualJob, nonce: Seq<char>)
    ensures
        ({
            let v = ritual::ritual_vars(job.channel@, berlin::local_date_text(job.now.spec_secs()));
            let context = ritual::ritual_opts(job.inject_byte_budget, nonce).context(
                job.store.soul@,
                job.store.lore@,
                inject::files(job.store.users@),
                inject::files(job.store.states@),
            );
            let head = inject::substituted(job.template@, v) + "\n\n"@;
            &&& v.speaker_username == "dreamer"@ && v.speaker_display == "dreamer"@
                && v.speaker_role == "dreamer"@ && v.speaker_user_id == ""@
            &&& v.channel == job.channel@
            &&& v.date == berlin::local_date_text(job.now.spec_secs())
            &&& context.volatile_state.len() == 0 ==> (head + context.durable_memory
                + "\n"@).is_prefix_of(job.prompt(nonce))
            &&& context.volatile_state.len() > 0 && context.durable_memory.len() > 0 ==> (head + (
            context.durable_memory + "\n"@ + context.volatile_state) + "\n"@).is_prefix_of(
                job.prompt(nonce),
            )
        }),
{
}

/// The ritual is given no chat and no speaker, but the budget and the nonce.
pub proof fn law_rituals_have_no_chat(budget: usize, nonce: Seq<char>)
    ensures
        ({
            let o = ritual::ritual_opts(budget, nonce);
            &&& o.inject_byte_budget == budget && o.nonce == nonce
            &&& o.primary_history is None && o.ai_channel_history is None
            &&& o.speaker_login.len() == 0
        }),
{
}

/// The catalog knows each model of a reply by its identifier, under the last name that
/// it was given.
pub proof fn law_replies_name_models(list: Seq<JsonModel>, id: Seq<char>, name: Seq<char>)
    requires
        list.len() > 0,
        json::field(list.last(), "id"@) == Some(JsonModel::Text(id)),
        json::field(list.last(), "name"@) == Some(JsonModel::Text(name)),
    ensures
        model_catalog::listed_names(list).contains_key(id),
        model_catalog::listed_names(list)[id] == name,
        forall|other: Seq<char>|
            other != id ==> #[trigger] model_catalog::listed_names(list).contains_key(other)
                == model_catalog::listed_names(list.drop_last()).contains_key(other),
{
}

/// The models of a reply are those of its data.
pub proof fn law_replies_hold_data(reply: JsonModel, list: Seq<JsonModel>)
    ensures
        json::field(reply, "data"@) == Some(JsonModel::List(list)) ==> model_catalog::reply_names(
            reply,
        ) == Some(model_catalog::listed_names(list)),
        json::field(reply, "data"@) is None ==> model_catalog::reply_names(reply) is None,
{
}

} // verus!
