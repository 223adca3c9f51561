//! Feedback of the users.

use vstd::prelude::*;
use vstd::string::StringExecFns;

use super::wait_reply;
use crate::berlin;
use crate::commands;
use crate::text::{number, slice};
use crate::time;
use crate::time::Timestamp;

verus! {

/// The file that the feedback goes into.
pub const FEEDBACK_FILENAME: &'static str = "feedback.txt";

pub const FEEDBACK_USAGE: &'static str = "Benutzung: !fb <nachricht>";

/// What is taken down, or what the user is told instead: how to give feedback
/// where they gave none, or that they have to wait.
pub open spec fn taken_down(args: Seq<Seq<char>>, remaining: Option<Seq<char>>) -> Result<
    Seq<char>,
    Seq<char>,
> {
    let message = slice::joined(args, " "@);
    if slice::trimmed(message).len() == 0 {
        Err(FEEDBACK_USAGE@)
    } else {
        match remaining {
            Some(r) => Err(commands::wait_text(r)),
            None => Ok(message),
        }
    }
}

/// What is taken down, or what the user is told instead.
pub fn open_feedback(args: &Vec<String>, remaining: Option<&str>) -> (r: Result<String, String>)
    ensures
        match r {
            Ok(m) => taken_down(slice::texts(args@), slice::opt_str(remaining)) == Ok::<
                Seq<char>,
                Seq<char>,
            >(m@),
            Err(e) => taken_down(slice::texts(args@), slice::opt_str(remaining)) == Err::<
                Seq<char>,
                Seq<char>,
            >(e@),
        },
{
    let message = slice::join(args, " ");
    if slice::is_blank(message.as_str()) {
        return Err(FEEDBACK_USAGE.to_owned());
    }
    match remaining {
        Some(r) => Err(wait_reply(r)),
        None => Ok(message),
    }
}

/// A Berlin date and time, to the second. A leap second is written as one more
/// than the second that it follows.
pub open spec fn stamp(at: Timestamp) -> Seq<char> {
    let second = berlin::local_second_of_day(at.spec_secs()) as nat;
    berlin::local_date_text(at.spec_secs()) + "T"@ + time::clock_text(second) + ":"@
        + number::two_digits(
        second % 60 + if at.leap() {
            1nat
        } else {
            0nat
        },
    )
}

/// A line of the file.
pub open spec fn line(at: Timestamp, user: Seq<char>, message: Seq<char>) -> Seq<char> {
    stamp(at) + " "@ + user + ": "@ + message + "\n"@
}

/// A line of the file.
pub fn feedback_line(at: Timestamp, user: &str, message: &str) -> (r: String)
    requires
        at.valid(),
    ensures
        r@ == line(at, user@, message@),
{
    let second: u32 = time::second_of_day(berlin::local_secs(at.secs()));
    let leap: u32 = if at.frac() >= 1_000_000_000 {
        1
    } else {
        0
    };
    let mut r = berlin::local_date(at);
    r.append("T");
    r.append(time::clock(second).as_str());
    r.append(":");
    r.append(number::two_digit_text((second % 60 + leap) as u64).as_str());
    r.append(" ");
    r.append(user);
    r.append(": ");
    r.append(message);
    r.append("\n");
    r
}

/// What the user is told once their feedback was written, or was not.
pub fn feedback_reply(saved: bool) -> (r: &'static str)
    ensures
        r@ == if saved {
            "Feedback gespeichert Okayge"@
        } else {
            "Da ist was schiefgelaufen FDM"@
        },
{
    if saved {
        "Feedback gespeichert Okayge"
    } else {
        "Da ist was schiefgelaufen FDM"
    }
}

} // verus!
