//! The configuration that the bot is started with.

use vstd::prelude::*;
use vstd::string::StringExecFns;

use crate::text::{chars, search, slice};

verus! {

/// Bytes that the secret of the dashboard has at least.
pub const SECRET_BYTES: usize = 32;

/// How to connect to the chat. The last four are secret.
pub struct TwitchConfiguration {
    pub channel: String,
    pub username: String,
    /// The user who may change the settings, where there is one.
    pub owner: Option<String>,
    pub refresh_token: String,
    pub client_id: String,
    pub client_secret: String,
}

/// Access to flight metadata.
pub struct AviationstackBootstrap {
    pub api_key: String,
}

/// Access to the language model.
pub struct AiBootstrap {
    pub api_key: String,
}

/// A recurring message of the configuration file.
#[derive(Debug)]
pub struct ScheduleConfig {
    pub name: String,
    pub message: String,
    /// Hours and minutes, as `hh:mm`.
    pub interval: String,
    pub start_date: Option<String>,
    pub end_date: Option<String>,
    pub active_time_start: Option<String>,
    pub active_time_end: Option<String>,
    pub enabled: bool,
}

/// The dashboard.
pub struct WebConfig {
    pub enabled: bool,
    pub bind_addr: String,
    pub public_url: String,
    /// Hexadecimal digits.
    pub session_secret: String,
}

/// Where the dashboard listens by default.
pub fn default_web_bind() -> (r: String)
    ensures
        r@ == "127.0.0.1:8080"@,
{
    "127.0.0.1:8080".to_owned()
}

/// Whether a recurring message is sent by default.
pub fn default_enabled() -> (b: bool)
    ensures
        b,
{
    true
}

impl Default for WebConfig {
    /// No dashboard.
    fn default() -> (r: WebConfig)
        ensures
            !r.enabled,
            r.bind_addr@ == "127.0.0.1:8080"@,
            r.public_url@.len() == 0,
            r.session_secret@.len() == 0,
    {
        WebConfig {
            enabled: false,
            bind_addr: default_web_bind(),
            public_url: String::new(),
            session_secret: String::new(),
        }
    }
}

/// The configuration that the bot is started with.
pub struct Configuration {
    pub twitch: TwitchConfiguration,
    pub aviationstack: Option<AviationstackBootstrap>,
    pub ai: Option<AiBootstrap>,
    pub schedules: Vec<ScheduleConfig>,
    pub web: WebConfig,
}

impl Configuration {
    /// A configuration for trials: one channel and nothing else.
    pub fn test_default() -> (r: Configuration)
        ensures
            r.twitch.channel@ == "test_chan"@,
            r.twitch.username@ == "bot"@,
            r.twitch.owner is None,
            r.twitch.refresh_token@ == "test"@,
            r.twitch.client_id@ == "test"@,
            r.twitch.client_secret@ == "test"@,
            r.aviationstack is None,
            r.ai is None,
            r.schedules@.len() == 0,
            !r.web.enabled,
            r.web.bind_addr@ == "127.0.0.1:8080"@,
            r.web.public_url@.len() == 0,
            r.web.session_secret@.len() == 0,
    {
        Configuration {
            twitch: TwitchConfiguration {
                channel: "test_chan".to_owned(),
                username: "bot".to_owned(),
                owner: None,
                refresh_token: "test".to_owned(),
                client_id: "test".to_owned(),
                client_secret: "test".to_owned(),
            },
            aviationstack: None,
            ai: None,
            schedules: Vec::new(),
            web: WebConfig::default(),
        }
    }
}

/// The value of a hexadecimal digit.
pub open spec fn hex_value(c: char) -> int {
    if '0' <= c <= '9' {
        c as u32 - '0' as u32
    } else if 'a' <= c <= 'f' {
        c as u32 - 'a' as u32 + 10
    } else {
        c as u32 - 'A' as u32 + 10
    }
}

/// Whether a text is made of pairs of hexadecimal digits.
pub open spec fn hex_pairs(s: Seq<char>) -> bool {
    s.len() % 2 == 0 && forall|i: int| 0 <= i < s.len() ==> chars::hex_digit(#[trigger] s[i])
}

/// Trusts `hex::decode`: a text of pairs of hexadecimal digits, in either case,
/// stands for one byte per pair, the first digit the higher. Any other text is
/// refused.
#[verifier::external_body]
fn hex_bytes(s: &str) -> (r: Option<Vec<u8>>)
    ensures
        match r {
            Some(bytes) => {
                &&& hex_pairs(s@)
                &&& bytes@.len() == s@.len() / 2
                &&& forall|i: int|
                    0 <= i < bytes@.len() ==> #[trigger] bytes@[i] == 16 * hex_value(s@[2 * i])
                        + hex_value(s@[2 * i + 1])
            },
            None => !hex_pairs(s@),
        },
{
    hex::decode(s).ok()
}

/// A text between quotation marks as the standard library shows it for
/// debugging.
pub uninterp spec fn quoted_text(s: Seq<char>) -> Seq<char>;

/// Trusts the `Debug` of `str`: what it writes depends on the characters alone.
#[verifier::external_body]
fn quoted(s: &str) -> (r: String)
    ensures
        r@ == quoted_text(s@),
{
    format!("{:?}", s)
}

/// Whether a text holds nothing but white space.
pub open spec fn blank(s: Seq<char>) -> bool {
    slice::trimmed(s).len() == 0
}

/// What is wrong with a recurring message, where its interval can be read or
/// not.
pub open spec fn schedule_problem(s: ScheduleConfig, interval_ok: bool) -> Option<Seq<char>> {
    if blank(s.name@) {
        Some("Schedule name cannot be empty"@)
    } else if blank(s.message@) {
        Some("Schedule '"@ + s.name@ + "' message cannot be empty"@)
    } else if blank(s.interval@) {
        Some("Schedule '"@ + s.name@ + "' interval cannot be empty"@)
    } else if !interval_ok {
        Some("Schedule '"@ + s.name@ + "' has invalid interval format"@)
    } else {
        None
    }
}

/// What is wrong with the first recurring message with which something is.
pub open spec fn schedules_problem(list: Seq<ScheduleConfig>, intervals_ok: Seq<bool>) -> Option<
    Seq<char>,
>
    decreases list.len(),
{
    if list.len() == 0 {
        None
    } else {
        match schedule_problem(list[0], intervals_ok[0]) {
            Some(text) => Some(text),
            None => schedules_problem(list.drop_first(), intervals_ok.drop_first()),
        }
    }
}

/// What is wrong with the dashboard.
pub open spec fn web_problem(w: WebConfig) -> Option<Seq<char>> {
    if !w.enabled {
        None
    } else if !hex_pairs(w.session_secret@) || w.session_secret@.len() / 2 < SECRET_BYTES {
        Some("web.session_secret must be ≥32 bytes hex when web.enabled = true"@)
    } else if !search::begins_with(w.public_url@, "https://"@) {
        Some(
            "web.public_url must start with https:// when web.enabled = true (got "@ + quoted_text(
                w.public_url@,
            ) + ")"@,
        )
    } else {
        None
    }
}

/// What is wrong with a configuration first.
pub open spec fn problem(c: Configuration, intervals_ok: Seq<bool>) -> Option<Seq<char>> {
    if blank(c.twitch.channel@) {
        Some("twitch.channel cannot be empty"@)
    } else if blank(c.twitch.username@) {
        Some("twitch.username cannot be empty"@)
    } else if c.aviationstack is Some && blank((c.aviationstack->0).api_key@) {
        Some("aviationstack.api_key cannot be empty when aviationstack is configured"@)
    } else if c.ai is Some && blank((c.ai->0).api_key@) {
        Some("ai.api_key cannot be empty"@)
    } else {
        match schedules_problem(c.schedules@, intervals_ok) {
            Some(text) => Some(text),
            None => web_problem(c.web),
        }
    }
}

/// A text about a recurring message.
fn about_schedule(name: &str, what: &str) -> (r: String)
    ensures
        r@ == "Schedule '"@ + name@ + what@,
{
    let mut r = "Schedule '".to_owned();
    r.append(name);
    r.append(what);
    r
}

/// Refuses a recurring message with which something is wrong.
fn check_schedule(s: &ScheduleConfig, interval_ok: bool) -> (r: Result<(), String>)
    ensures
        match r {
            Ok(_) => schedule_problem(*s, interval_ok) is None,
            Err(e) => schedule_problem(*s, interval_ok) == Some(e@),
        },
{
    if slice::is_blank(s.name.as_str()) {
        return Err("Schedule name cannot be empty".to_owned());
    }
    if slice::is_blank(s.message.as_str()) {
        return Err(about_schedule(s.name.as_str(), "' message cannot be empty"));
    }
    if slice::is_blank(s.interval.as_str()) {
        return Err(about_schedule(s.name.as_str(), "' interval cannot be empty"));
    }
    if !interval_ok {
        return Err(about_schedule(s.name.as_str(), "' has invalid interval format"));
    }
    Ok(())
}

/// Refuses a dashboard with which something is wrong.
fn check_web(w: &WebConfig) -> (r: Result<(), String>)
    ensures
        match r {
            Ok(_) => web_problem(*w) is None,
            Err(e) => web_problem(*w) == Some(e@),
        },
{
    if !w.enabled {
        return Ok(());
    }
    let len: usize = match hex_bytes(w.session_secret.as_str()) {
        Some(bytes) => bytes.len(),
        None => 0,
    };
    if len < SECRET_BYTES {
        return Err("web.session_secret must be ≥32 bytes hex when web.enabled = true".to_owned());
    }
    if !search::starts(w.public_url.as_str(), "https://") {
        let mut text =
            "web.public_url must start with https:// when web.enabled = true (got ".to_owned();
        text.append(quoted(w.public_url.as_str()).as_str());
        text.append(")");
        return Err(text);
    }
    Ok(())
}

/// Refuses a configuration with which something is wrong, and says what is
/// wrong first. `intervals_ok` tells of each recurring message whether its
/// interval can be read.
pub fn validate_config(config: &Configuration, intervals_ok: &Vec<bool>) -> (r: Result<(), String>)
    requires
        intervals_ok@.len() == config.schedules@.len(),
    ensures
        match r {
            Ok(_) => problem(*config, intervals_ok@) is None,
            Err(e) => problem(*config, intervals_ok@) == Some(e@),
        },
{
    if slice::is_blank(config.twitch.channel.as_str()) {
        return Err("twitch.channel cannot be empty".to_owned());
    }
    if slice::is_blank(config.twitch.username.as_str()) {
        return Err("twitch.username cannot be empty".to_owned());
    }
    if let Some(av) = &config.aviationstack {
        if slice::is_blank(av.api_key.as_str()) {
            return Err(
                "aviationstack.api_key cannot be empty when aviationstack is configured".to_owned(),
            );
        }
    }
    if let Some(ai) = &config.ai {
        if slice::is_blank(ai.api_key.as_str()) {
            return Err("ai.api_key cannot be empty".to_owned());
        }
    }
    let ghost goal = schedules_problem(config.schedules@, intervals_ok@);
    let mut i: usize = 0;
    assert(config.schedules@.skip(0) =~= config.schedules@);
    assert(intervals_ok@.skip(0) =~= intervals_ok@);
    while i < config.schedules.len()
        invariant
            i <= config.schedules@.len(),
            intervals_ok@.len() == config.schedules@.len(),
            goal == schedules_problem(config.schedules@, intervals_ok@),
            goal == schedules_problem(
                config.schedules@.skip(i as int),
                intervals_ok@.skip(i as int),
            ),
            problem(*config, intervals_ok@) == match goal {
                Some(text) => Some(text),
                None => web_problem(config.web),
            },
        decreases config.schedules@.len() - i,
    {
        let ghost rest = config.schedules@.skip(i as int);
        let ghost oks = intervals_ok@.skip(i as int);
        assert(rest.drop_first() =~= config.schedules@.skip(i + 1));
        assert(oks.drop_first() =~= intervals_ok@.skip(i + 1));
        let checked = check_schedule(&config.schedules[i], intervals_ok[i]);
        if let Err(e) = checked {
            return Err(e);
        }
        i = i + 1;
    }
    check_web(&config.web)
}

/// A dashboard that is switched off needs neither a secret nor an address.
pub proof fn law_no_dashboard_no_demands(c: Configuration, intervals_ok: Seq<bool>, w: WebConfig)
    requires
        !c.web.enabled,
        !w.enabled,
    ensures
        problem(c, intervals_ok) == problem((Configuration { web: w, ..c }), intervals_ok),
{
}

/// A dashboard that is switched on has a long secret and a safe address, or the
/// configuration is refused.
pub proof fn law_dashboards_are_guarded(c: Configuration, intervals_ok: Seq<bool>)
    requires
        c.web.enabled,
        problem(c, intervals_ok) is None,
    ensures
        hex_pairs(c.web.session_secret@),
        c.web.session_secret@.len() >= 64,
        search::begins_with(c.web.public_url@, "https://"@),
{
}

/// Exactly a complete configuration is accepted: with a channel, a name, keys where
/// there is something to open with them, complete recurring messages, and a
/// dashboard that is switched off or guarded.
pub proof fn law_complete_configurations_pass(c: Configuration, intervals_ok: Seq<bool>)
    requires
        intervals_ok.len() == c.schedules@.len(),
    ensures
        problem(c, intervals_ok) is None <==> {
            &&& slice::trimmed(c.twitch.channel@).len() > 0
            &&& slice::trimmed(c.twitch.username@).len() > 0
            &&& c.aviationstack is Some ==> slice::trimmed(c.aviationstack->0.api_key@).len() > 0
            &&& c.ai is Some ==> slice::trimmed(c.ai->0.api_key@).len() > 0
            &&& forall|i: int|
                0 <= i < c.schedules@.len() ==> complete(#[trigger] c.schedules@[i], intervals_ok[i])
            &&& c.web.enabled ==> hex_pairs(c.web.session_secret@) && c.web.session_secret@.len()
                >= 64 && search::begins_with(c.web.public_url@, "https://"@)
        },
{
    lemma_complete_schedules(c.schedules@, intervals_ok);
}

/// A recurring message of a configuration has a name, a text and an interval that can
/// be read.
pub open spec fn complete(s: ScheduleConfig, interval_ok: bool) -> bool {
    &&& slice::trimmed(s.name@).len() > 0
    &&& slice::trimmed(s.message@).len() > 0
    &&& slice::trimmed(s.interval@).len() > 0
    &&& interval_ok
}

proof fn lemma_complete_schedules(list: Seq<ScheduleConfig>, intervals_ok: Seq<bool>)
    requires
        intervals_ok.len() == list.len(),
    ensures
        schedules_problem(list, intervals_ok) is None <==> forall|i: int|
            0 <= i < list.len() ==> complete(#[trigger] list[i], intervals_ok[i]),
    decreases list.len(),
{
    if list.len() > 0 {
        let rest = list.drop_first();
        let oks = intervals_ok.drop_first();
        lemma_complete_schedules(rest, oks);
        if schedules_problem(list, intervals_ok) is None {
            assert forall|i: int| 0 <= i < list.len() implies complete(
                #[trigger] list[i],
                intervals_ok[i],
            ) by {
                if i > 0 {
                    assert(list[i] == rest[i - 1]);
                    assert(intervals_ok[i] == oks[i - 1]);
                }
            }
        }
        if forall|i: int|
            0 <= i < list.len() ==> complete(#[trigger] list[i], intervals_ok[i]) {
            assert(complete(list[0], intervals_ok[0]));
            assert forall|i: int| 0 <= i < rest.len() implies complete(
                #[trigger] rest[i],
                oks[i],
            ) by {
                assert(rest[i] == list[i + 1]);
                assert(oks[i] == intervals_ok[i + 1]);
            }
        }
    }
}

} // verus!
