//! What holds of recurring messages that are accepted, and of the counts of those sent.

use vstd::prelude::*;

use super::schedule;
use super::schedule::Schedule;
use super::telemetry::{ScheduleRuntime, TelemetryModel};
use super::trigger::Trigger;
use super::weekday;
use crate::berlin;
use crate::text::{chars, slice};
use crate::time::{CivilDate, Moment, Timestamp};

verus! {

/// A character that may stand in a name.
pub open spec fn plain(c: char) -> bool {
    &&& !chars::control(c)
    &&& c != '/' && c != '?' && c != '#' && c != '%' && c != '&' && c != '+' && c != '='
    &&& c != ' ' && c != '\'' && c != '"'
}

/// A message without faults: it has a plain name and a text in one line, it is not
/// sent more often than every minute, its hours have a beginning and an end or
/// neither, and its last day does not come before its first.
pub open spec fn faultless(s: Schedule) -> bool {
    &&& slice::trimmed(s.name@).len() > 0
    &&& forall|i: int| 0 <= i < s.name@.len() ==> plain(#[trigger] s.name@[i])
    &&& slice::trimmed(s.message@).len() > 0
    &&& forall|i: int| 0 <= i < s.message@.len() ==> !chars::control(#[trigger] s.message@[i])
    &&& s.trigger matches Trigger::Interval { every, active_from, active_to, .. } ==> every >= 60
        && (active_from is Some <==> active_to is Some)
    &&& s.start_date is Some && s.end_date is Some ==> s.start_date->0.days <= s.end_date->0.days
}

/// Exactly a message without faults is accepted.
pub proof fn law_faultless_messages_pass(s: Schedule, prefix: Seq<char>)
    ensures
        s.errors(prefix).len() == 0 <==> faultless(s),
{
    let bad = s.name@.filter(schedule::reserved_chars());
    if forall|i: int| 0 <= i < s.name@.len() ==> plain(#[trigger] s.name@[i]) {
        lemma_none_kept(s.name@, schedule::reserved_chars());
    } else {
        let i = choose|i: int| 0 <= i < s.name@.len() && !plain(#[trigger] s.name@[i]);
        assert(schedule::reserved_chars()(s.name@[i]));
        s.name@.lemma_filter_contains(schedule::reserved_chars(), i);
        assert(bad.len() > 0);
    }
}

proof fn lemma_none_kept(s: Seq<char>, p: spec_fn(char) -> bool)
    requires
        forall|i: int| 0 <= i < s.len() ==> !p(#[trigger] s[i]),
    ensures
        s.filter(p).len() == 0,
    decreases s.len(),
{
    reveal(Seq::filter);
    if s.len() > 0 {
        lemma_none_kept(s.drop_last(), p);
    }
}

/// Each fault is reported under the field that has it.
pub proof fn law_faults_name_their_field(s: Schedule, prefix: Seq<char>)
    ensures
        slice::trimmed(s.name@).len() == 0 ==> s.errors(prefix).contains(
            (prefix + ".name"@, "must not be blank"@),
        ),
        slice::trimmed(s.message@).len() == 0 ==> s.errors(prefix).contains(
            (prefix + ".message"@, "must not be blank"@),
        ),
        schedule::has_control(s.message@) ==> s.errors(prefix).contains(
            (prefix + ".message"@, "must not contain control characters"@),
        ),
        s.trigger matches Trigger::Interval { active_from, active_to, .. } ==> active_from is Some
            && active_to is None ==> s.errors(prefix).contains(
            (prefix + ".trigger.active_to"@, "must be set when active_from is set"@),
        ),
        s.trigger matches Trigger::Interval { active_from, active_to, .. } ==> active_from is None
            && active_to is Some ==> s.errors(prefix).contains(
            (prefix + ".trigger.active_from"@, "must be set when active_to is set"@),
        ),
        s.start_date is Some && s.end_date is Some && s.end_date->0.days < s.start_date->0.days
            ==> s.errors(prefix).len() > 0 && s.errors(prefix).last().0 == prefix + ".end_date"@,
{
    let bad = s.name@.filter(schedule::reserved_chars());
    let text = schedule::text_errors(s.name@, s.message@, prefix);
    let trigger = schedule::trigger_errors(s.trigger, prefix);
    let all = s.errors(prefix);
    let a = schedule::one_if(
        slice::trimmed(s.name@).len() == 0,
        prefix,
        ".name"@,
        "must not be blank"@,
    );
    let b = schedule::one_if(
        bad.len() > 0,
        prefix,
        ".name"@,
        "must not contain URL-reserved, whitespace, quote, or control characters "@
            + schedule::shown_list(bad),
    );
    let c = schedule::one_if(
        slice::trimmed(s.message@).len() == 0,
        prefix,
        ".message"@,
        "must not be blank"@,
    );
    let n = a.len() + b.len();
    if slice::trimmed(s.name@).len() == 0 {
        assert(all[0] == a[0]);
    }
    if slice::trimmed(s.message@).len() == 0 {
        assert(all[n as int] == c[0]);
    }
    if schedule::has_control(s.message@) {
        assert(all[text.len() - 1] == (prefix + ".message"@,
            "must not contain control characters"@));
    }
    if let Trigger::Interval { active_from, active_to, .. } = s.trigger {
        if active_from is Some && active_to is None || active_from is None && active_to is Some {
            assert(all[text.len() + trigger.len() - 1] == trigger.last());
        }
    }
}

/// A message that is sent is counted on its Berlin day, beginning anew each day, and
/// the instant is remembered.
pub proof fn law_sendings_are_counted(s: ScheduleRuntime, at: Timestamp)
    ensures
        ({
            let today = CivilDate { days: berlin::local_day_of(at.spec_secs()) as i64 };
            let after = s.fired(at);
            &&& after.last_fired_at == Some(at)
            &&& after.day_anchor == Some(today)
            &&& s.day_anchor == Some(today) && s.fires_today < u32::MAX ==> after.fires_today
                == s.fires_today + 1
            &&& s.day_anchor != Some(today) ==> after.fires_today == 1
        }),
{
}

/// What was never sent was not sent today.
pub proof fn law_unsent_messages(t: TelemetryModel, name: Seq<char>)
    requires
        !t.states.contains_key(name),
    ensures
        t.state(name).fires_today == 0,
        t.state(name).last_fired_at is None,
{
}

/// The counts are due to be written five seconds after they last were.
pub proof fn law_counts_are_written(t: TelemetryModel, now: Moment)
    ensures
        t.flush_due(now) <==> now.nanos >= t.last_flush.nanos + 5_000_000_000,
{
}

/// A week begins with Monday, and its days are in order.
pub proof fn law_weeks_begin_with_monday()
    ensures
        weekday::week().len() == 7,
        weekday::week()[0] is Mon,
        forall|i: int|
            0 <= i < 6 ==> super::trigger_laws::day_after(weekday::week()[i])
                == #[trigger] weekday::week()[i + 1],
{
}

/// A character that may not stand in a name is shown in quotes, as it is or as it is
/// written.
pub proof fn law_reserved_characters_are_shown(c: char)
    ensures
        !chars::control(c) && c != '\'' ==> schedule::shown(c) == seq!['\'', c, '\''],
        schedule::shown('\n') == "'\\n'"@,
        schedule::shown('\r') == "'\\r'"@,
        schedule::shown('\t') == "'\\t'"@,
        schedule::shown('\'') == "'\\''"@,
{
}

} // verus!
