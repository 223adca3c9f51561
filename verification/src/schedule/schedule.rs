//! Recurring messages and what may be wrong with them.

use vstd::prelude::*;
use vstd::string::StringExecFns;

use super::trigger::Trigger;
use crate::berlin;
use crate::berlin::LocalInstants;
use crate::settings;
use crate::settings::FieldError;
use crate::text::{chars, number, slice};
use crate::time;
use crate::time::{CivilDate, Timestamp, SECS_PER_DAY, TICKS_PER_SEC};

verus! {

/// A recurring message.
#[derive(Debug)]
pub struct Schedule {
    pub name: String,
    pub message: String,
    pub trigger: Trigger,
    /// The first Berlin day on which the message is sent.
    pub start_date: Option<CivilDate>,
    /// The last Berlin day on which the message is sent.
    pub end_date: Option<CivilDate>,
    pub enabled: bool,
}

/// Whether a character may not stand in a name.
pub open spec fn reserved(c: char) -> bool {
    ||| c == '/'
    ||| c == '?'
    ||| c == '#'
    ||| c == '%'
    ||| c == '&'
    ||| c == '+'
    ||| c == '='
    ||| c == ' '
    ||| c == '\''
    ||| c == '"'
    ||| chars::control(c)
}

/// The characters that may not stand in a name.
pub open spec fn reserved_chars() -> spec_fn(char) -> bool {
    |c: char| reserved(c)
}

/// The small hexadecimal digits of a number, without leading zeros.
pub open spec fn hex_digits(n: nat) -> Seq<char>
    decreases n,
{
    let last = if n % 16 < 10 {
        ('0' as u32 + n % 16) as char
    } else {
        ('a' as u32 + n % 16 - 10) as char
    };
    if n < 16 {
        seq![last]
    } else {
        hex_digits(n / 16).push(last)
    }
}

/// How a reserved character is shown between quotes.
pub open spec fn shown(c: char) -> Seq<char> {
    if c == '\0' {
        "'\\0'"@
    } else if c == '\t' {
        "'\\t'"@
    } else if c == '\r' {
        "'\\r'"@
    } else if c == '\n' {
        "'\\n'"@
    } else if c == '\'' {
        "'\\''"@
    } else if chars::control(c) {
        "'\\u{"@ + hex_digits(c as u32 as nat) + "}'"@
    } else {
        seq!['\'', c, '\'']
    }
}

/// How reserved characters are shown as a list.
pub open spec fn shown_list(v: Seq<char>) -> Seq<char> {
    "["@ + slice::joined(v.map_values(|c: char| shown(c)), ", "@) + "]"@
}

/// Appends the small hexadecimal digits of a number.
fn push_hex(s: &mut String, n: u32)
    ensures
        final(s)@ == old(s)@ + hex_digits(n as nat),
    decreases n,
{
    if n >= 16 {
        push_hex(s, n / 16);
    }
    let d: u8 = (n % 16) as u8;
    let ghost before = s@;
    if d < 10 {
        s.push((48 + d) as char);
    } else {
        s.push((87 + d) as char);
    }
    assert(s@ =~= old(s)@ + hex_digits(n as nat));
}

/// How a reserved character is shown between quotes.
fn show(c: char) -> (r: String)
    ensures
        r@ == shown(c),
{
    if c == '\0' {
        "'\\0'".to_owned()
    } else if c == '\t' {
        "'\\t'".to_owned()
    } else if c == '\r' {
        "'\\r'".to_owned()
    } else if c == '\n' {
        "'\\n'".to_owned()
    } else if c == '\'' {
        "'\\''".to_owned()
    } else if chars::is_control(c) {
        let mut r = "'\\u{".to_owned();
        push_hex(&mut r, c as u32);
        r.append("}'");
        r
    } else {
        let mut r = String::new();
        r.push('\'');
        r.push(c);
        r.push('\'');
        assert(r@ =~= shown(c));
        r
    }
}

/// How reserved characters are shown as a list.
fn show_list(v: &Vec<char>) -> (r: String)
    ensures
        r@ == shown_list(v@),
{
    let mut parts: Vec<String> = Vec::new();
    let mut i: usize = 0;
    while i < v.len()
        invariant
            i <= v@.len(),
            parts@.len() == i,
            forall|j: int| 0 <= j < i ==> (#[trigger] parts@[j])@ == shown(v@[j]),
        decreases v@.len() - i,
    {
        parts.push(show(v[i]));
        i = i + 1;
    }
    assert(slice::texts(parts@) =~= v@.map_values(|c: char| shown(c)));
    let mut r = "[".to_owned();
    r.append(slice::join(&parts, ", ").as_str());
    r.append("]");
    r
}

/// The reserved characters of a name.
fn reserved_in(name: &str) -> (r: Vec<char>)
    ensures
        r@ == name@.filter(reserved_chars()),
{
    let v = slice::chars_of(name);
    let ghost p = reserved_chars();
    let mut r: Vec<char> = Vec::new();
    let mut i: usize = 0;
    assert(r@ =~= v@.take(0).filter(p)) by {
        reveal(Seq::filter);
    }
    while i < v.len()
        invariant
            i <= v@.len(),
            p == reserved_chars(),
            r@ == v@.take(i as int).filter(p),
        decreases v@.len() - i,
    {
        let ghost after = v@.take(i + 1);
        assert(after.drop_last() =~= v@.take(i as int));
        assert(after.filter(p) == if p(after.last()) {
            v@.take(i as int).filter(p).push(after.last())
        } else {
            v@.take(i as int).filter(p)
        }) by {
            reveal(Seq::filter);
        }
        let c = v[i];
        if c == '/' || c == '?' || c == '#' || c == '%' || c == '&' || c == '+' || c == '=' || c
            == ' ' || c == '\'' || c == '"' || chars::is_control(c) {
            r.push(c);
        }
        i = i + 1;
    }
    assert(v@.take(i as int) =~= v@);
    r
}

/// Whether a text holds a control character.
pub open spec fn has_control(s: Seq<char>) -> bool {
    exists|i: int| 0 <= i < s.len() && chars::control(#[trigger] s[i])
}

/// Whether a text holds a control character.
fn holds_control(s: &str) -> (b: bool)
    ensures
        b == has_control(s@),
{
    let v = slice::chars_of(s);
    let mut i: usize = 0;
    while i < v.len()
        invariant
            i <= v@.len(),
            v@ == s@,
            forall|j: int| 0 <= j < i ==> !chars::control(#[trigger] s@[j]),
        decreases v@.len() - i,
    {
        if chars::is_control(v[i]) {
            assert(chars::control(s@[i as int]));
            return true;
        }
        i = i + 1;
    }
    false
}

/// An error, where there is one.
pub open spec fn one_if(
    wrong: bool,
    prefix: Seq<char>,
    path: Seq<char>,
    message: Seq<char>,
) -> Seq<(Seq<char>, Seq<char>)> {
    if wrong {
        seq![(prefix + path, message)]
    } else {
        Seq::empty()
    }
}

/// Notes an error, where there is one.
fn note(errs: &mut Vec<FieldError>, wrong: bool, prefix: &str, path: &str, message: &str)
    ensures
        settings::errors(final(errs)@) == settings::errors(old(errs)@) + one_if(
            wrong,
            prefix@,
            path@,
            message@,
        ),
{
    if wrong {
        let mut field = prefix.to_owned();
        field.append(path);
        errs.push(FieldError { field, message: message.to_owned() });
    }
    assert(settings::errors(errs@) =~= settings::errors(old(errs)@) + one_if(
        wrong,
        prefix@,
        path@,
        message@,
    ));
}

/// What may be wrong with a trigger.
pub open spec fn trigger_errors(trigger: Trigger, prefix: Seq<char>) -> Seq<
    (Seq<char>, Seq<char>),
> {
    match trigger {
        Trigger::Interval { every, active_from, active_to, .. } => one_if(
            every < 60,
            prefix,
            ".trigger.every"@,
            "must be ≥ 1 minute (got "@ + number::decimal(every as int) + "s)"@,
        ) + one_if(
            active_from is Some && active_to is None,
            prefix,
            ".trigger.active_to"@,
            "must be set when active_from is set"@,
        ) + one_if(
            active_from is None && active_to is Some,
            prefix,
            ".trigger.active_from"@,
            "must be set when active_to is set"@,
        ),
        Trigger::Calendar { .. } => Seq::empty(),
    }
}

/// What may be wrong with the days between which a message is sent.
pub open spec fn date_errors(
    start: Option<CivilDate>,
    end: Option<CivilDate>,
    prefix: Seq<char>,
) -> Seq<(Seq<char>, Seq<char>)> {
    match (start, end) {
        (Some(s), Some(e)) => one_if(
            e.days < s.days,
            prefix,
            ".end_date"@,
            "must be ≥ start_date (start="@ + time::utc_date_text(s.days * SECS_PER_DAY) + ", end="@
                + time::utc_date_text(e.days * SECS_PER_DAY) + ")"@,
        ),
        _ => Seq::empty(),
    }
}

/// What may be wrong with the texts of a message.
pub open spec fn text_errors(name: Seq<char>, message: Seq<char>, prefix: Seq<char>) -> Seq<
    (Seq<char>, Seq<char>),
> {
    let bad = name.filter(reserved_chars());
    one_if(slice::trimmed(name).len() == 0, prefix, ".name"@, "must not be blank"@) + one_if(
        bad.len() > 0,
        prefix,
        ".name"@,
        "must not contain URL-reserved, whitespace, quote, or control characters "@ + shown_list(
            bad,
        ),
    ) + one_if(slice::trimmed(message).len() == 0, prefix, ".message"@, "must not be blank"@)
        + one_if(
        has_control(message),
        prefix,
        ".message"@,
        "must not contain control characters"@,
    )
}

impl Schedule {
    /// The days and times of the message lie inside the calendar.
    pub open spec fn valid(&self) -> bool {
        &&& self.trigger.valid()
        &&& self.start_date is Some ==> (self.start_date->0).valid()
        &&& self.end_date is Some ==> (self.end_date->0).valid()
    }

    /// What is wrong with the message, each error under a path that begins with
    /// the prefix.
    pub open spec fn errors(&self, prefix: Seq<char>) -> Seq<(Seq<char>, Seq<char>)> {
        text_errors(self.name@, self.message@, prefix) + trigger_errors(self.trigger, prefix)
            + date_errors(self.start_date, self.end_date, prefix)
    }

    /// What is wrong with the message.
    pub fn validate(&self, prefix: &str) -> (errs: Vec<FieldError>)
        requires
            self.valid(),
        ensures
            settings::errors(errs@) == self.errors(prefix@),
    {
        let mut errs: Vec<FieldError> = Vec::new();
        assert(settings::errors(errs@) =~= Seq::empty());
        note(&mut errs, slice::is_blank(self.name.as_str()), prefix, ".name", "must not be blank");
        let bad = reserved_in(self.name.as_str());
        let mut text =
            "must not contain URL-reserved, whitespace, quote, or control characters ".to_owned();
        text.append(show_list(&bad).as_str());
        note(&mut errs, bad.len() > 0, prefix, ".name", text.as_str());
        note(
            &mut errs,
            slice::is_blank(self.message.as_str()),
            prefix,
            ".message",
            "must not be blank",
        );
        note(
            &mut errs,
            holds_control(self.message.as_str()),
            prefix,
            ".message",
            "must not contain control characters",
        );
        assert(settings::errors(errs@) =~= text_errors(self.name@, self.message@, prefix@));
        let ghost texts = settings::errors(errs@);
        match self.trigger {
            Trigger::Interval { every, active_from, active_to, .. } => {
                let mut text = "must be ≥ 1 minute (got ".to_owned();
                text.append(number::unsigned_text(every).as_str());
                text.append("s)");
                note(&mut errs, every < 60, prefix, ".trigger.every", text.as_str());
                note(
                    &mut errs,
                    active_from.is_some() && active_to.is_none(),
                    prefix,
                    ".trigger.active_to",
                    "must be set when active_from is set",
                );
                note(
                    &mut errs,
                    active_from.is_none() && active_to.is_some(),
                    prefix,
                    ".trigger.active_from",
                    "must be set when active_to is set",
                );
            },
            Trigger::Calendar { .. } => {},
        }
        assert(settings::errors(errs@) =~= texts + trigger_errors(self.trigger, prefix@));
        let ghost before = settings::errors(errs@);
        if let (Some(s), Some(e)) = (self.start_date, self.end_date) {
            let mut text = "must be ≥ start_date (start=".to_owned();
            text.append(s.text().as_str());
            text.append(", end=");
            text.append(e.text().as_str());
            text.append(")");
            note(&mut errs, e.days < s.days, prefix, ".end_date", text.as_str());
        }
        assert(settings::errors(errs@) =~= before + date_errors(
            self.start_date,
            self.end_date,
            prefix@,
        ));
        errs
    }
}

/// The instant of a second of a Berlin day, where it is a single one, in
/// seconds.
pub open spec fn single_instant(day: CivilDate, second: int) -> Option<int> {
    match berlin::instants_of(day.days * 86_400 + second) {
        LocalInstants::Single(t) => Some(t as int),
        _ => None,
    }
}

/// The instant of a second of a Berlin day, where it is a single one.
fn find_single_instant(day: CivilDate, second: i64) -> (r: Option<i64>)
    requires
        day.valid(),
        0 <= second < 86_400,
    ensures
        match r {
            Some(t) => single_instant(day, second as int) == Some(t as int) && -86_400 < t - (
            day.days * 86_400 + second) < 86_400,
            None => single_instant(day, second as int) is None,
        },
{
    match berlin::berlin_instants(day.days * SECS_PER_DAY + second).unwrap() {
        LocalInstants::Single(t) => Some(t),
        _ => None,
    }
}

impl Schedule {
    /// The instant after which the next message is looked for: `now`, or the one
    /// just before the first day begins, whichever is later. It cannot be told
    /// where that day does not begin at a single instant.
    pub open spec fn anchor(&self, now: Timestamp) -> Option<Timestamp> {
        match self.start_date {
            None => Some(now),
            Some(day) => match single_instant(day, 0) {
                None => None,
                Some(start) => if now.ticks < start * TICKS_PER_SEC {
                    Some(Timestamp { ticks: ((start - 1) * TICKS_PER_SEC + 999_999_999) as i128 })
                } else {
                    Some(now)
                },
            },
        }
    }

    /// When the message is sent next: `Some(None)` where never again. It cannot
    /// be told where a first or last day does not begin or end at a single
    /// instant, and where the trigger does not tell.
    pub open spec fn active_fire(&self, now: Timestamp) -> Option<Option<Timestamp>> {
        match self.anchor(now) {
            None => None,
            Some(anchor) => if !anchor.valid() {
                None
            } else {
                match self.trigger.fires(anchor) {
                    None => None,
                    Some(next) => match self.end_date {
                        None => Some(Some(next)),
                        Some(day) => match single_instant(day, 86_399) {
                            None => None,
                            Some(end) => if next.ticks > end * TICKS_PER_SEC {
                                Some(None)
                            } else {
                                Some(Some(next))
                            },
                        },
                    },
                }
            },
        }
    }

    /// The instant after which the next message is looked for.
    fn find_anchor(&self, now: Timestamp) -> (r: Option<Timestamp>)
        requires
            now.valid(),
            self.valid(),
        ensures
            r == self.anchor(now),
    {
        match self.start_date {
            None => Some(now),
            Some(day) => match find_single_instant(day, 0) {
                None => None,
                Some(start) => if now.ticks < start as i128 * TICKS_PER_SEC {
                    Some(Timestamp::from_parts(start - 1, 999_999_999))
                } else {
                    Some(now)
                },
            },
        }
    }

    /// When the message is sent next, if ever again. That is after `now`, and
    /// not before the first day begins.
    pub fn next_active_fire(&self, now: Timestamp) -> (r: Option<Timestamp>)
        requires
            now.valid(),
            self.valid(),
            self.active_fire(now) is Some,
        ensures
            self.active_fire(now) == Some(r),
            r is Some ==> (r->0).ticks > now.ticks,
            r is Some && self.start_date is Some ==> (r->0).ticks >= (single_instant(self.start_date->0, 0)->0) * TICKS_PER_SEC,
    {
        let anchor = self.find_anchor(now).unwrap();
        let next = self.trigger.next_fire_after(anchor);
        if let Some(day) = self.end_date {
            let end: i64 = find_single_instant(day, 86_399).unwrap();
            if next.ticks > end as i128 * TICKS_PER_SEC {
                return None;
            }
        }
        Some(next)
    }

    /// When the message is sent next, if ever again: `None` where that cannot
    /// be told.
    pub fn checked_next_active_fire(&self, now: Timestamp) -> (r: Option<Option<Timestamp>>)
        requires
            now.valid(),
            self.valid(),
        ensures
            r == self.active_fire(now),
            r matches Some(Some(t)) ==> t.ticks > now.ticks,
            r matches Some(Some(t)) ==> self.start_date is Some ==> t.ticks >= (single_instant(
                self.start_date->0,
                0,
            )->0) * TICKS_PER_SEC,
    {
        let anchor = match self.find_anchor(now) {
            Some(t) => t,
            None => {
                return None;
            },
        };
        if !anchor.is_valid() || self.trigger.checked_next_fire_after(anchor).is_none() {
            return None;
        }
        if let Some(day) = self.end_date {
            if find_single_instant(day, 86_399).is_none() {
                return None;
            }
        }
        Some(self.next_active_fire(now))
    }
}

/// No message is sent after the last day.
pub proof fn law_no_message_after_the_last_day(s: Schedule, now: Timestamp)
    requires
        s.end_date is Some,
        s.active_fire(now) is Some,
    ensures
        s.active_fire(now)->0 matches Some(t) ==> t.ticks <= (single_instant(
            s.end_date->0,
            86_399,
        )->0) * TICKS_PER_SEC,
{
}

} // verus!
