//! The nightly ritual in which a language model revises the memory.

use chrono::Timelike;
use vstd::prelude::*;
use vstd::string::StringExecFns;

use super::inject;
use super::inject::{
    BuildOpts, ContextModel, FenceLabel, FileModel, InvocationChannel, LabelModel, MemoryFiles,
    OptsModel, SubstitutionVars, VarsModel,
};
use crate::berlin;
use crate::berlin::LocalInstants;
use crate::settings::{AiConnection, AiDreamer, ConnectionModel, DreamerModel};
use crate::text::slice;
use crate::time;
use crate::time::{
    CivilDate, TimeOfDay, Timestamp, EARLIEST_SECS, LATEST_SECS, SECS_PER_DAY, TICKS_PER_SEC,
};

verus! {

/// The message with which the ritual is begun.
pub const REVISE: &'static str = "revise.";

/// The time of day that the calendar library reads from a text of the form
/// `HH:MM`, in seconds.
pub uninterp spec fn clock_secs(s: Seq<char>) -> Option<u32>;

/// Trusts `chrono::NaiveTime::parse_from_str` with the format `%H:%M`, and
/// `Timelike::num_seconds_from_midnight`: what is read depends on the text
/// alone, and is a second of the day.
#[verifier::external_body]
fn read_clock(s: &str) -> (r: Option<u32>)
    ensures
        r == clock_secs(s@),
        r is Some ==> r->0 < 86_400,
{
    chrono::NaiveTime::parse_from_str(s, "%H:%M").ok().map(|t| t.num_seconds_from_midnight())
}

/// The time of day of a text of the form `HH:MM`, where it is one.
pub fn parse_run_at(s: &str) -> (r: Option<TimeOfDay>)
    ensures
        match r {
            Some(t) => t.valid() && clock_secs(s@) is Some && t.nanos == (clock_secs(s@)->0)
                * 1_000_000_000,
            None => clock_secs(s@) is None,
        },
{
    match read_clock(s) {
        Some(secs) => Some(TimeOfDay { nanos: secs as u64 * 1_000_000_000 }),
        None => None,
    }
}

/// A time of day on a Berlin day, as seconds on the Berlin clock.
pub open spec fn local_run(day: int, at: TimeOfDay) -> int {
    day * 86_400 + at.nanos as int / 1_000_000_000
}

/// The instant of a time of day on a Berlin day, in ticks. Where the
/// clocks pass it twice, it is the first time. Where they jump over it, it is an
/// hour later, if that is a single instant.
pub open spec fn run_instant(day: int, at: TimeOfDay) -> Option<int> {
    let local = local_run(day, at);
    let fraction = at.nanos as int % 1_000_000_000;
    match berlin::instants_of(local) {
        LocalInstants::Single(t) => Some(t * TICKS_PER_SEC + fraction),
        LocalInstants::Fold(t, _) => Some(t * TICKS_PER_SEC + fraction),
        LocalInstants::Gap => match berlin::instants_of(local + 3_600) {
            LocalInstants::Single(t) => Some(t * TICKS_PER_SEC + fraction),
            _ => None,
        },
    }
}

/// The instant of a time of day on a Berlin day, where it can be told. That is
/// within two days of the beginning of the day in UTC. A time that exists is
/// the one that the Berlin clock shows at that instant, and only one that does
/// not exist is moved, by an hour.
pub fn resolve_berlin_run_at(date: CivilDate, time: TimeOfDay) -> (r: Option<Timestamp>)
    requires
        EARLIEST_SECS - 604_800 <= date.days * SECS_PER_DAY <= LATEST_SECS + 604_800,
        time.valid(),
    ensures
        match r {
            Some(t) => run_instant(date.days as int, time) == Some(t.ticks as int) && (
            date.days * SECS_PER_DAY - 172_800) * TICKS_PER_SEC < t.ticks < (date.days
                * SECS_PER_DAY + 259_200) * TICKS_PER_SEC,
            None => run_instant(date.days as int, time) is None,
        },
        ({
            let local = local_run(date.days as int, time);
            if berlin::instants_of(local) is Gap {
                r is Some ==> berlin::local_secs_of(r->0.spec_secs()) == local + 3_600
            } else {
                r is Some && berlin::local_secs_of(r->0.spec_secs()) == local
            }
        }),
{
    let local: i64 = date.days * SECS_PER_DAY + (time.nanos / 1_000_000_000) as i64;
    let fraction: i128 = (time.nanos % 1_000_000_000) as i128;
    match berlin::berlin_instants(local).unwrap() {
        LocalInstants::Single(t) => Some(
            Timestamp { ticks: t as i128 * TICKS_PER_SEC + fraction },
        ),
        LocalInstants::Fold(t, _) => Some(
            Timestamp { ticks: t as i128 * TICKS_PER_SEC + fraction },
        ),
        LocalInstants::Gap => match berlin::berlin_instants(local + 3_600).unwrap() {
            LocalInstants::Single(t) => Some(
                Timestamp { ticks: t as i128 * TICKS_PER_SEC + fraction },
            ),
            _ => None,
        },
    }
}

/// When the ritual runs next, in ticks: today, where that is still to
/// come, and else tomorrow. It cannot be told where tomorrow has no such
/// instant.
pub open spec fn next_instant(now: Timestamp, at: TimeOfDay) -> Option<int> {
    let today = berlin::local_day_of(now.spec_secs());
    match run_instant(today, at) {
        Some(t) => if t > now.ticks {
            Some(t)
        } else {
            run_instant(today + 1, at)
        },
        None => run_instant(today + 1, at),
    }
}

/// A run of the ritual.
#[derive(Clone, Copy, Debug, PartialEq, Eq, Structural)]
pub struct RitualRun {
    pub at: Timestamp,
    /// The day before the Berlin day of the run, whose transcript it reads.
    pub rotate_to: CivilDate,
}

/// When the ritual runs next, and the day that it reads.
pub fn next_run(now: Timestamp, run_at: TimeOfDay) -> (r: Option<RitualRun>)
    requires
        now.valid(),
        run_at.valid(),
    ensures
        match r {
            Some(run) => next_instant(now, run_at) == Some(run.at.ticks as int)
                && run.rotate_to.days == berlin::local_day_of(run.at.spec_secs()) - 1,
            None => next_instant(now, run_at) is None,
        },
{
    let today: i64 = berlin::local_day(now);
    let target = match resolve_berlin_run_at(CivilDate { days: today }, run_at) {
        Some(t) => if t.ticks > now.ticks {
            Some(t)
        } else {
            resolve_berlin_run_at(CivilDate { days: today + 1 }, run_at)
        },
        None => resolve_berlin_run_at(CivilDate { days: today + 1 }, run_at),
    };
    match target {
        Some(at) => {
            let secs: i64 = time::floor_div(at.ticks, TICKS_PER_SEC) as i64;
            let day: i64 = time::day_of(berlin::local_secs(secs));
            Some(RitualRun { at, rotate_to: CivilDate { days: day - 1 } })
        },
        None => None,
    }
}

/// The first of two, where it is there, and else the second.
pub open spec fn or_else<T>(a: Option<T>, b: Option<T>) -> Option<T> {
    match a {
        Some(x) => Some(x),
        None => b,
    }
}

/// A copy of the first of two, where it is there, and else of the second.
fn first_of(a: &Option<String>, b: &Option<String>) -> (r: Option<String>)
    ensures
        slice::opt_text(r) == or_else(slice::opt_text(*a), slice::opt_text(*b)),
{
    match a {
        Some(s) => Some(s.clone()),
        None => slice::clone_opt(b),
    }
}

/// What a run of the ritual works on.
#[derive(Debug)]
pub struct RitualJob {
    pub store: MemoryFiles,
    pub inject_byte_budget: usize,
    pub channel: String,
    /// The prompt's template.
    pub template: String,
    pub transcript: String,
    pub rotate_to: CivilDate,
    pub now: Timestamp,
}

/// What goes to the language model.
#[derive(Debug)]
pub struct RitualRequest {
    pub model: String,
    pub system: String,
    pub user: String,
    pub reasoning_effort: Option<String>,
    pub service_tier: Option<String>,
}

/// What a request holds.
#[verifier::ext_equal]
pub struct RequestModel {
    pub model: Seq<char>,
    pub system: Seq<char>,
    pub user: Seq<char>,
    pub reasoning_effort: Option<Seq<char>>,
    pub service_tier: Option<Seq<char>>,
}

impl View for RitualRequest {
    type V = RequestModel;

    open spec fn view(&self) -> RequestModel {
        RequestModel {
            model: self.model@,
            system: self.system@,
            user: self.user@,
            reasoning_effort: slice::opt_text(self.reasoning_effort),
            service_tier: slice::opt_text(self.service_tier),
        }
    }
}

/// The options of a prompt without chat and without a speaker.
pub open spec fn ritual_opts(budget: usize, nonce: Seq<char>) -> OptsModel {
    OptsModel {
        inject_byte_budget: budget,
        nonce,
        primary_history: None,
        primary_login: Seq::empty(),
        ai_channel_history: None,
        ai_channel_login: None,
        invocation_channel: InvocationChannel::Primary,
        bot_login: Seq::empty(),
        persona_name: Seq::empty(),
        speaker_login: Seq::empty(),
    }
}

/// All blocks of the memory, one after the other.
pub open spec fn memory_block(context: ContextModel) -> Seq<char> {
    if context.volatile_state.len() == 0 {
        context.durable_memory
    } else if context.durable_memory.len() == 0 {
        context.volatile_state
    } else {
        context.durable_memory + "\n"@ + context.volatile_state
    }
}

/// What stands for the placeholders in the template of the ritual.
pub open spec fn ritual_vars(channel: Seq<char>, date: Seq<char>) -> VarsModel {
    VarsModel {
        speaker_username: "dreamer"@,
        speaker_display: "dreamer"@,
        speaker_user_id: ""@,
        speaker_role: "dreamer"@,
        channel,
        date,
    }
}

impl RitualJob {
    /// The job's days lie inside the calendar.
    pub open spec fn valid(&self) -> bool {
        self.rotate_to.valid() && self.now.valid()
    }

    /// The prompt: the template, the whole memory and the transcript of the day.
    pub open spec fn prompt(&self, nonce: Seq<char>) -> Seq<char> {
        let context = ritual_opts(self.inject_byte_budget, nonce).context(
            self.store.soul@,
            self.store.lore@,
            inject::files(self.store.users@),
            inject::files(self.store.states@),
        );
        let transcript = inject::fenced(
            LabelModel::Transcript {
                date: time::utc_date_text(self.rotate_to.days * SECS_PER_DAY),
            },
            nonce,
            inject::scrubbed(self.transcript@),
        );
        inject::substituted(self.template@, ritual_vars(self.channel@, berlin::local_date_text(self.now.spec_secs())))
            + "\n\n"@ + memory_block(context) + "\n"@ + transcript
    }

    /// What goes to the language model. What the ritual has no setting of its
    /// own for comes from the connection.
    pub open spec fn request(
        &self,
        nonce: Seq<char>,
        dreamer: DreamerModel,
        connection: ConnectionModel,
    ) -> RequestModel {
        RequestModel {
            model: match dreamer.model {
                Some(m) => m,
                None => connection.model,
            },
            system: self.prompt(nonce),
            user: REVISE@,
            reasoning_effort: or_else(dreamer.reasoning_effort, connection.reasoning_effort),
            service_tier: or_else(dreamer.service_tier, connection.service_tier),
        }
    }
}

/// What goes to the language model, with the blocks fenced by a nonce.
pub fn prepare_ritual(
    job: &RitualJob,
    nonce: &str,
    dreamer: &AiDreamer,
    connection: &AiConnection,
) -> (r: RitualRequest)
    requires
        job.valid(),
    ensures
        r@ == job.request(nonce@, dreamer@, connection@),
{
    assert(""@ =~= Seq::<char>::empty()) by {
        reveal_strlit("");
    }
    let opts = BuildOpts {
        inject_byte_budget: job.inject_byte_budget,
        nonce: nonce.to_owned(),
        primary_history: None,
        primary_login: String::new(),
        ai_channel_history: None,
        ai_channel_login: None,
        invocation_channel: InvocationChannel::Primary,
        bot_login: String::new(),
        persona_name: String::new(),
        speaker_login: String::new(),
    };
    assert(opts@ == ritual_opts(job.inject_byte_budget, nonce@));
    let context = inject::build_chat_turn_context(&job.store, &opts);
    let date = job.rotate_to.text();
    let transcript = inject::fence_block(
        FenceLabel::Transcript { date: date.as_str() },
        nonce,
        inject::scrub_for_inject(job.transcript.as_str()).as_str(),
    );
    let today = berlin::local_date(job.now);
    let vars = SubstitutionVars {
        speaker_username: "dreamer",
        speaker_display: "dreamer",
        speaker_user_id: "",
        speaker_role: "dreamer",
        channel: job.channel.as_str(),
        date: today.as_str(),
    };
    let head = inject::substitute(job.template.as_str(), vars);
    let mut memory = context.durable_memory.clone();
    if !context.volatile_state.as_str().is_empty() {
        if !memory.as_str().is_empty() {
            memory.append("\n");
        }
        memory.append(context.volatile_state.as_str());
    }
    assert(memory@ =~= memory_block(context@));
    let mut system = head;
    system.append("\n\n");
    system.append(memory.as_str());
    system.append("\n");
    system.append(transcript.as_str());
    let model = match &dreamer.model {
        Some(m) => m.clone(),
        None => connection.model.clone(),
    };
    RitualRequest {
        model,
        system,
        user: REVISE.to_owned(),
        reasoning_effort: first_of(&dreamer.reasoning_effort, &connection.reasoning_effort),
        service_tier: first_of(&dreamer.service_tier, &connection.service_tier),
    }
}

/// What goes to the language model, with the blocks fenced by a fresh nonce.
pub fn begin_ritual(job: &RitualJob, dreamer: &AiDreamer, connection: &AiConnection) -> (r:
    RitualRequest)
    requires
        job.valid(),
    ensures
        exists|nonce: Seq<char>|
            inject::is_nonce(nonce) && r@ == #[trigger] job.request(nonce, dreamer@, connection@),
{
    let nonce = inject::fresh_nonce();
    prepare_ritual(job, nonce.as_str(), dreamer, connection)
}

/// The ritual reads every memory file about a user for which the budget has
/// room, whoever wrote in the chat.
pub proof fn law_the_ritual_sees_everyone(
    budget: usize,
    nonce: Seq<char>,
    users: Seq<FileModel>,
)
    ensures
        ritual_opts(budget, nonce).user_files(users) == inject::ordered(users, Seq::empty()),
{
    let opts = ritual_opts(budget, nonce);
    assert(opts.speaker() =~= Seq::<char>::empty());
}

/// A transcript that was scrubbed before goes in as one that was not.
pub proof fn law_transcripts_are_scrubbed_once(date: Seq<char>, nonce: Seq<char>, text: Seq<char>)
    ensures
        inject::fenced(LabelModel::Transcript { date }, nonce, inject::scrubbed(text))
            == inject::fenced(LabelModel::Transcript { date }, nonce, text),
{
    super::inject_laws::law_scrubbing_is_idempotent(text);
}

} // verus!
