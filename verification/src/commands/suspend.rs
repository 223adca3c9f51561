//! Suspending commands for a while.

use vstd::prelude::*;
use vstd::string::StringExecFns;

use super::{is_admin, normalize_command_name};
use crate::commands;
use crate::text::slice;

verus! {

pub const SUSPEND_USAGE: &'static str = "Nutze: !suspend <command> [dauer]";

pub const UNSUSPEND_USAGE: &'static str = "Nutze: !unsuspend <command>";

pub const NOT_SUSPENDABLE: &'static str = "Das kann nicht gesperrt werden FDM";

/// What may be wrong with a duration.
#[derive(Clone, Copy, Debug, PartialEq, Eq, Structural)]
pub enum ParseDurationError {
    Empty,
    InvalidNumber,
    UnknownUnit,
    Zero,
    TooLong,
}

impl ParseDurationError {
    /// What the user is told.
    pub open spec fn text(self) -> Seq<char> {
        match self {
            ParseDurationError::Empty => "Dauer fehlt. Nutze z.B. 30s, 10m, 2h, 1d FDM"@,
            ParseDurationError::InvalidNumber => "Ungültige Zahl. Nutze z.B. 30s, 10m, 2h, 1d FDM"@,
            ParseDurationError::UnknownUnit => "Unbekannte Einheit. Erlaubt: s, m, h, d FDM"@,
            ParseDurationError::Zero => "Dauer muss größer als 0 sein FDM"@,
            ParseDurationError::TooLong => "Dauer zu lang (max 7 Tage) FDM"@,
        }
    }
}

/// What the user is told of a duration.
pub fn duration_error_message(err: &ParseDurationError) -> (r: &'static str)
    ensures
        r@ == err.text(),
{
    match err {
        ParseDurationError::Empty => "Dauer fehlt. Nutze z.B. 30s, 10m, 2h, 1d FDM",
        ParseDurationError::InvalidNumber => "Ungültige Zahl. Nutze z.B. 30s, 10m, 2h, 1d FDM",
        ParseDurationError::UnknownUnit => "Unbekannte Einheit. Erlaubt: s, m, h, d FDM",
        ParseDurationError::Zero => "Dauer muss größer als 0 sein FDM",
        ParseDurationError::TooLong => "Dauer zu lang (max 7 Tage) FDM",
    }
}

/// Whether a command can never be suspended.
pub open spec fn exempt(name: Seq<char>) -> bool {
    name == "suspend"@ || name == "unsuspend"@ || name == "p"@
}

/// Whether a command can never be suspended.
pub fn is_exempt(name: &str) -> (b: bool)
    ensures
        b == exempt(name@),
{
    slice::same(name, "suspend") || slice::same(name, "unsuspend") || slice::same(name, "p")
}

/// What comes of a wish to suspend a command, or to lift its suspension.
#[derive(Debug)]
pub enum SuspendStep {
    /// The user may not.
    Denied,
    Reply(String),
    /// The command is suspended for so many seconds.
    Suspend { name: String, secs: u64 },
    /// The suspension of the command is lifted.
    Lift { name: String },
}

/// What a step holds.
pub enum StepModel {
    Denied,
    Reply(Seq<char>),
    Suspend { name: Seq<char>, secs: u64 },
    Lift { name: Seq<char> },
}

impl View for SuspendStep {
    type V = StepModel;

    open spec fn view(&self) -> StepModel {
        match *self {
            SuspendStep::Denied => StepModel::Denied,
            SuspendStep::Reply(s) => StepModel::Reply(s@),
            SuspendStep::Suspend { name, secs } => StepModel::Suspend { name: name@, secs },
            SuspendStep::Lift { name } => StepModel::Lift { name: name@ },
        }
    }
}

/// What comes of a wish to suspend a command. `duration` is what was read from
/// the second word, where there is one.
pub open spec fn suspension(
    admin: bool,
    args: Seq<Seq<char>>,
    duration: Option<Result<u64, ParseDurationError>>,
    default_secs: u64,
) -> StepModel {
    if !admin {
        StepModel::Denied
    } else if args.len() == 0 {
        StepModel::Reply(SUSPEND_USAGE@)
    } else if exempt(commands::command_name(args[0])) {
        StepModel::Reply(NOT_SUSPENDABLE@)
    } else {
        match duration {
            None => StepModel::Suspend {
                name: commands::command_name(args[0]),
                secs: default_secs,
            },
            Some(Ok(secs)) => StepModel::Suspend { name: commands::command_name(args[0]), secs },
            Some(Err(e)) => StepModel::Reply(e.text()),
        }
    }
}

/// What comes of a wish to suspend a command.
fn begin_suspend(
    admin: bool,
    args: &Vec<String>,
    duration: Option<Result<u64, ParseDurationError>>,
    default_secs: u64,
) -> (r: SuspendStep)
    ensures
        r@ == suspension(admin, slice::texts(args@), duration, default_secs),
{
    if !admin {
        return SuspendStep::Denied;
    }
    if args.len() == 0 {
        return SuspendStep::Reply(SUSPEND_USAGE.to_owned());
    }
    assert(slice::texts(args@)[0] == args@[0]@);
    let name = normalize_command_name(args[0].as_str());
    if is_exempt(name.as_str()) {
        return SuspendStep::Reply(NOT_SUSPENDABLE.to_owned());
    }
    match duration {
        None => SuspendStep::Suspend { name, secs: default_secs },
        Some(Ok(secs)) => SuspendStep::Suspend { name, secs },
        Some(Err(e)) => SuspendStep::Reply(duration_error_message(&e).to_owned()),
    }
}

/// What comes of a wish to lift a suspension.
pub open spec fn lifting(admin: bool, args: Seq<Seq<char>>) -> StepModel {
    if !admin {
        StepModel::Denied
    } else if args.len() == 0 {
        StepModel::Reply(UNSUSPEND_USAGE@)
    } else {
        StepModel::Lift { name: commands::command_name(args[0]) }
    }
}

/// What comes of a wish to lift a suspension.
fn begin_unsuspend(admin: bool, args: &Vec<String>) -> (r: SuspendStep)
    ensures
        r@ == lifting(admin, slice::texts(args@)),
{
    if !admin {
        return SuspendStep::Denied;
    }
    if args.len() == 0 {
        return SuspendStep::Reply(UNSUSPEND_USAGE.to_owned());
    }
    assert(slice::texts(args@)[0] == args@[0]@);
    SuspendStep::Lift { name: normalize_command_name(args[0].as_str()) }
}

/// The command that suspends others.
#[derive(Debug)]
pub struct SuspendCommand {
    pub hidden_admin_ids: Vec<String>,
    /// Seconds for which a command is suspended where nothing is said.
    pub default_duration: u64,
}

impl SuspendCommand {
    pub fn new(hidden_admin_ids: Vec<String>, default_duration: u64) -> (r: SuspendCommand)
        ensures
            r.hidden_admin_ids == hidden_admin_ids,
            r.default_duration == default_duration,
    {
        SuspendCommand { hidden_admin_ids, default_duration }
    }

    /// What comes of a call of the command by a user with these badges.
    pub fn execute(
        &self,
        badges: &Vec<String>,
        user_id: &str,
        args: &Vec<String>,
        duration: Option<Result<u64, ParseDurationError>>,
    ) -> (r: SuspendStep)
        ensures
            r@ == suspension(
                commands::administers(
                    slice::texts(badges@),
                    user_id@,
                    slice::texts(self.hidden_admin_ids@),
                ),
                slice::texts(args@),
                duration,
                self.default_duration,
            ),
    {
        let admin = is_admin(badges, user_id, &self.hidden_admin_ids);
        begin_suspend(admin, args, duration, self.default_duration)
    }
}

/// The command that lifts suspensions.
#[derive(Debug)]
pub struct UnsuspendCommand {
    pub hidden_admin_ids: Vec<String>,
}

impl UnsuspendCommand {
    pub fn new(hidden_admin_ids: Vec<String>) -> (r: UnsuspendCommand)
        ensures
            r.hidden_admin_ids == hidden_admin_ids,
    {
        UnsuspendCommand { hidden_admin_ids }
    }

    /// What comes of a call of the command by a user with these badges.
    pub fn execute(&self, badges: &Vec<String>, user_id: &str, args: &Vec<String>) -> (r: SuspendStep)
        ensures
            r@ == lifting(
                commands::administers(
                    slice::texts(badges@),
                    user_id@,
                    slice::texts(self.hidden_admin_ids@),
                ),
                slice::texts(args@),
            ),
    {
        begin_unsuspend(is_admin(badges, user_id, &self.hidden_admin_ids), args)
    }
}

/// What the user is told once a command is suspended for a while.
pub fn suspended_reply(name: &str, duration: &str) -> (r: String)
    ensures
        r@ == "!"@ + name@ + " gesperrt für "@ + duration@,
{
    let mut r = "!".to_owned();
    r.append(name);
    r.append(" gesperrt für ");
    r.append(duration);
    r
}

/// What the user is told once a suspension is lifted, or there was none.
pub fn lifted_reply(name: &str, was_suspended: bool) -> (r: String)
    ensures
        r@ == "!"@ + name@ + if was_suspended {
            " entsperrt Okayge"@
        } else {
            " war nicht gesperrt FDM"@
        },
{
    let mut r = "!".to_owned();
    r.append(name);
    if was_suspended {
        r.append(" entsperrt Okayge");
    } else {
        r.append(" war nicht gesperrt FDM");
    }
    r
}

/// A command that can never be suspended is not, however it is written.
pub proof fn law_exempt_commands_stay(
    admin: bool,
    args: Seq<Seq<char>>,
    duration: Option<Result<u64, ParseDurationError>>,
    default_secs: u64,
)
    ensures
        match suspension(admin, args, duration, default_secs) {
            StepModel::Suspend { name, .. } => admin && !exempt(name) && commands::command_name(
                name,
            ) == name,
            _ => true,
        },
{
    if args.len() > 0 {
        commands::law_names_are_stable(args[0]);
    }
}

} // verus!
