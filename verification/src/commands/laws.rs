//! What holds of the chat commands.

use vstd::prelude::*;

use super::feedback;
use super::haiku;
use super::ping_admin;
use super::ping_admin::OpModel;
use super::ping_trigger;
use super::suspend;
use super::suspend::ParseDurationError;
use crate::ai::chat_history::EntryModel;
use crate::berlin;
use crate::ping::{DecisionModel, ManagerModel, PingModel};
use crate::ping_actor::{PingCommand, ReplyModel};
use crate::ping_results;
use crate::text::{chars, number, search, slice};
use crate::time;
use crate::time::{Moment, Timestamp};

verus! {

/// The broadcaster, moderators and those on the list administer the bot, and nobody
/// else does.
pub proof fn law_administrators(
    badges: Seq<Seq<char>>,
    user_id: Seq<char>,
    hidden_admins: Seq<Seq<char>>,
)
    ensures
        super::administers(badges, user_id, hidden_admins) <==> (exists|i: int|
            0 <= i < badges.len() && (#[trigger] badges[i] == "broadcaster"@ || badges[i]
                == "moderator"@)) || (exists|i: int|
            0 <= i < hidden_admins.len() && #[trigger] hidden_admins[i] == user_id),
{
}

/// Where an administrator asks for it, a command is suspended for the time given, or
/// for the usual time where none is.
pub proof fn law_suspensions(
    args: Seq<Seq<char>>,
    duration: Option<Result<u64, ParseDurationError>>,
    usual: u64,
    name: Seq<char>,
)
    requires
        args.len() > 0,
        name == chars::ascii_lowered(args[0]),
        args[0].len() > 0,
        args[0][0] != '!',
        name != "suspend"@ && name != "unsuspend"@ && name != "p"@,
    ensures
        duration is None ==> suspend::suspension(true, args, duration, usual) == (
        suspend::StepModel::Suspend { name, secs: usual }),
        duration matches Some(Ok(secs)) ==> suspend::suspension(true, args, duration, usual) == (
        suspend::StepModel::Suspend { name, secs }),
        duration matches Some(Err(e)) ==> suspend::suspension(true, args, duration, usual)
            is Reply,
        suspend::lifting(true, args) == (suspend::StepModel::Lift { name }),
        suspend::suspension(false, args, duration, usual) is Denied,
        suspend::lifting(false, args) is Denied,
{
}

/// An exclamation mark before the name of a command makes no difference.
pub proof fn law_marks_make_no_difference(name: Seq<char>)
    ensures
        super::command_name(seq!['!'] + name) == super::command_name(name),
{
    assert((seq!['!'] + name).drop_first() =~= name);
}

/// An administrator creates and edits a ping with the words behind its name, adds
/// and removes the member named, and deletes the ping named.
pub proof fn law_administrators_run_pings(args: Seq<Seq<char>>, member: Seq<char>)
    requires
        args.len() >= 3,
    ensures
        ({
            let name = slice::lowercased(args[1]);
            let template = slice::joined(args.skip(2), " "@);
            let step = ping_admin::requested(args, true, member);
            &&& args[0] == "create"@ ==> step == ping_admin::StepModel::Run(
                OpModel::Create { name, template },
            )
            &&& args[0] == "edit"@ ==> step == ping_admin::StepModel::Run(
                OpModel::Edit { name, template },
            )
            &&& args[0] == "add"@ ==> step == ping_admin::StepModel::Run(
                OpModel::Add { name, user: member },
            )
            &&& args[0] == "remove"@ ==> step == ping_admin::StepModel::Run(
                OpModel::Remove { name, user: member },
            )
            &&& args[0] == "delete"@ ==> step == ping_admin::StepModel::Run(
                OpModel::Delete { name },
            )
        }),
{
    lemma_words();
}

/// Anyone joins and leaves the ping named, and sees their own pings.
pub proof fn law_anyone_joins_and_leaves(args: Seq<Seq<char>>, admin: bool, member: Seq<char>)
    requires
        args.len() >= 2,
    ensures
        ({
            let name = slice::lowercased(args[1]);
            let step = ping_admin::requested(args, admin, member);
            &&& args[0] == "join"@ ==> step == ping_admin::StepModel::Run(OpModel::Join { name })
            &&& args[0] == "leave"@ ==> step == ping_admin::StepModel::Run(OpModel::Leave { name })
            &&& args[0] == "list"@ ==> step == ping_admin::StepModel::Run(OpModel::List)
        }),
{
    lemma_words();
}

/// The words of the command differ.
proof fn lemma_words()
    ensures
        "create"@.len() == 6 && "create"@[0] == 'c',
        "delete"@.len() == 6 && "delete"@[0] == 'd',
        "edit"@.len() == 4 && "edit"@[0] == 'e',
        "add"@.len() == 3,
        "remove"@.len() == 6 && "remove"@[0] == 'r',
        "join"@.len() == 4 && "join"@[0] == 'j',
        "leave"@.len() == 5,
        "list"@.len() == 4 && "list"@[0] == 'l',
{
    reveal_strlit("create");
    reveal_strlit("delete");
    reveal_strlit("edit");
    reveal_strlit("add");
    reveal_strlit("remove");
    reveal_strlit("join");
    reveal_strlit("leave");
    reveal_strlit("list");
}

/// Who joins a ping is its member afterwards, and who is added to it by someone else
/// is, too.
pub proof fn law_members_are_in(
    m: ManagerModel,
    command: PingCommand,
    name: Seq<char>,
    p: PingModel,
    login: Seq<char>,
    user: Seq<char>,
    op: OpModel,
    now: Moment,
    at: Timestamp,
)
    requires
        m.well_formed(),
        ping_results::stands(m, name, p),
        op == (OpModel::Join { name }) && user == login || op == (OpModel::Add { name, user }),
        ping_admin::carries_out(command, op, login),
        !p.members.contains(slice::lowercased(user)),
    ensures
        ping_results::stands(
            m.processed(command, now, at).0,
            name,
            PingModel { members: p.members.push(slice::lowercased(user)), ..p },
        ),
{
    ping_results::law_joining(m, name, p, user, name, p);
}

/// Who leaves a ping, or is removed from it, is none of its members afterwards.
pub proof fn law_members_are_out(
    m: ManagerModel,
    command: PingCommand,
    name: Seq<char>,
    user: Seq<char>,
    login: Seq<char>,
    op: OpModel,
    now: Moment,
    at: Timestamp,
)
    requires
        op == (OpModel::Leave { name }) && user == login || op == (OpModel::Remove { name, user }),
        ping_admin::carries_out(command, op, login),
    ensures
        m.processed(command, now, at).0 == m.leave(name, user).0,
        m.processed(command, now, at).1 == ReplyModel::Done(m.leave(name, user).1),
{
}

/// A ping is created by who asks for it, with the template given.
pub proof fn law_pings_are_created(
    m: ManagerModel,
    command: PingCommand,
    name: Seq<char>,
    template: Seq<char>,
    login: Seq<char>,
    now: Moment,
    at: Timestamp,
)
    ensures
        ping_admin::carries_out(command, OpModel::Create { name, template }, login)
            ==> m.processed(command, now, at).0 == m.create(name, template, login, None).0,
        ping_admin::carries_out(command, OpModel::Edit { name, template }, login) ==> m.processed(
            command,
            now,
            at,
        ).0 == m.edit(name, template).0,
        ping_admin::carries_out(command, OpModel::Delete { name }, login) ==> m.processed(
            command,
            now,
            at,
        ).0 == m.delete(name).0,
{
}

/// A user is told what became of their wish: the names they asked for, or that it was
/// done, with the ping and the user concerned.
pub proof fn law_wishes_are_answered(name: Seq<char>, user: Seq<char>, names: Seq<Seq<char>>)
    ensures
        names.len() > 0 ==> ping_admin::told(OpModel::List, ReplyModel::Names(names))
            == slice::joined(names, " "@),
        names.len() == 0 ==> ping_admin::told(OpModel::List, ReplyModel::Names(names))
            == "Keine Pings"@,
        ping_admin::told(OpModel::Add { name, user }, ReplyModel::Done(Ok(()))) == user + " zu \""@
            + name + "\" hinzugefügt Okayge"@,
        ping_admin::told(OpModel::Remove { name, user }, ReplyModel::Done(Ok(()))) == user
            + " aus \""@ + name + "\" entfernt Okayge"@,
        ping_admin::told(OpModel::Delete { name }, ReplyModel::Done(Ok(()))) == "Ping \""@ + name
            + "\" gelöscht Okayge"@,
{
}

/// A word calls a ping where it is an exclamation mark and the name of the ping.
pub proof fn law_pings_are_called_by_name(name: Seq<char>)
    requires
        name.len() > 0,
    ensures
        ping_trigger::called(seq!['!'] + name) == Some(name),
        name[0] != '!' ==> ping_trigger::called(name) is None,
        ping_trigger::called(seq!['!']) is None,
{
    reveal_strlit("!");
    let word = seq!['!'] + name;
    assert(word.subrange(0, 1) =~= "!"@);
    assert(word.skip(1) =~= name);
    if search::begins_with(name, "!"@) {
        assert(name.subrange(0, 1)[0] == name[0]);
    }
}

/// A ping that fires is said. One that rests is put off, and any other is passed over.
pub proof fn law_pings_are_said(text: Seq<char>, decision: DecisionModel, remaining: Seq<char>)
    ensures
        ping_trigger::reaction(DecisionModel::Fire(text), remaining)
            == ping_trigger::ReactionModel::Say(text),
        decision is Skip <==> ping_trigger::reaction(decision, remaining) is Nothing,
        decision is OnCooldown ==> ping_trigger::reaction(decision, remaining)
            == ping_trigger::ReactionModel::Reply("Bitte warte noch "@ + remaining + " Waiting"@),
{
}

/// A haiku draws on the last eighty lines of the chat, each with its author, but not
/// on the call of the command.
pub proof fn law_haikus_draw_on_the_chat(
    entries: Seq<EntryModel>,
    user: Seq<char>,
    message: Seq<char>,
    i: int,
)
    requires
        entries.len() > 1,
    ensures
        ({
            let last = entries.last();
            let call = chars::same_ignoring_case(last.username, user) && chars::same_ignoring_case(
                last.text,
                message,
            );
            let said = if call {
                entries.drop_last()
            } else {
                entries
            };
            let m = haiku::material(Some(entries), user, message);
            &&& m is Some
            &&& m->0.len() == if said.len() < 80 {
                said.len()
            } else {
                80
            }
            &&& 0 <= i < m->0.len() ==> {
                let e = said[said.len() - m->0.len() + i];
                m->0[i] == e.username + ": "@ + e.text
            }
        }),
{
}

/// Without chat there is no haiku, and who has to wait is told so first.
pub proof fn law_haikus_need_chat(
    remaining: Seq<char>,
    lines: Seq<Seq<char>>,
    material: Option<Seq<Seq<char>>>,
)
    ensures
        haiku::opening(Some(remaining), material) == haiku::OpeningModel::Reply(
            "Bitte warte noch "@ + remaining + " Waiting"@,
        ),
        haiku::opening(None, None) is Reply,
        haiku::opening(None, Some(lines)) matches haiku::OpeningModel::Ask(text)
            && slice::joined(lines, "\n"@).is_suffix_of(text),
        haiku::material(None, remaining, remaining) is None,
        haiku::material(Some(Seq::empty()), remaining, remaining) is None,
{
}

/// Feedback is taken down as it was given. Where there is none, or the user has to
/// wait, nothing is.
pub proof fn law_feedback_is_taken_down(args: Seq<Seq<char>>, remaining: Seq<char>)
    ensures
        ({
            let message = slice::joined(args, " "@);
            let blank = slice::trimmed(message).len() == 0;
            &&& !blank ==> feedback::taken_down(args, None) == Ok::<Seq<char>, Seq<char>>(message)
            &&& !blank ==> feedback::taken_down(args, Some(remaining)) == Err::<
                Seq<char>,
                Seq<char>,
            >("Bitte warte noch "@ + remaining + " Waiting"@)
            &&& blank ==> feedback::taken_down(args, None) is Err && feedback::taken_down(
                args,
                Some(remaining),
            ) is Err
        }),
{
}

/// A line of feedback tells the day, the time, the user and the message, in this
/// order.
#[verifier::spinoff_prover]
#[verifier::rlimit(60)]
pub proof fn law_feedback_lines(at: Timestamp, user: Seq<char>, message: Seq<char>)
    ensures
        ({
            let second = berlin::local_second_of_day(at.spec_secs()) as nat;
            let line = feedback::line(at, user, message);
            &&& (berlin::local_date_text(at.spec_secs()) + "T"@ + time::clock_text(second)
                + ":"@).is_prefix_of(line)
            &&& (" "@ + user + ": "@ + message + "\n"@).is_suffix_of(line)
        }),
{
    let second = berlin::local_second_of_day(at.spec_secs()) as nat;
    let line = feedback::line(at, user, message);
    assert(line =~= feedback::stamp(at) + (" "@ + user + ": "@ + message + "\n"@));
    let head = berlin::local_date_text(at.spec_secs()) + "T"@ + time::clock_text(second) + ":"@;
    assert(head.is_prefix_of(feedback::stamp(at)));
}

/// The commands by which suspensions and pings are run can never be suspended, with
/// marks or without, in whatever case.
pub proof fn law_some_commands_are_exempt(
    args: Seq<Seq<char>>,
    duration: Option<Result<u64, ParseDurationError>>,
    usual: u64,
)
    requires
        args.len() > 0,
        super::command_name(args[0]) == "suspend"@ || super::command_name(args[0]) == "unsuspend"@
            || super::command_name(args[0]) == "p"@,
    ensures
        suspend::suspension(true, args, duration, usual) == suspend::StepModel::Reply(
            "Das kann nicht gesperrt werden FDM"@,
        ),
{
}

/// What went wrong is told: those who join are told that they are in already, those who
/// leave that they are not, unless there is no such ping.
pub proof fn law_failures_are_told(name: Seq<char>, user: Seq<char>, cause: Seq<char>)
    ensures
        search::contains(cause, "gibt es nicht"@) ==> ping_admin::failed_text(
            OpModel::Join { name },
            cause,
        ) == cause + " FDM"@ && ping_admin::failed_text(OpModel::Leave { name }, cause) == cause
            + " FDM"@,
        !search::contains(cause, "gibt es nicht"@) ==> ping_admin::failed_text(
            OpModel::Join { name },
            cause,
        ) == "Bist du schon FDM"@ && ping_admin::failed_text(OpModel::Leave { name }, cause)
            == "Bist du nicht drin FDM"@,
        ping_admin::failed_text(OpModel::Add { name, user }, cause) == cause + " FDM"@,
        ping_admin::failed_text(OpModel::Delete { name }, cause) == cause + " FDM"@,
{
}

/// A line of feedback tells the second, which goes on through a leap second.
pub proof fn law_feedback_tells_the_second(at: Timestamp)
    ensures
        ({
            let second = berlin::local_second_of_day(at.spec_secs()) as nat;
            let shown = if at.leap() {
                second % 60 + 1
            } else {
                second % 60
            };
            (":"@ + number::two_digits(shown)).is_suffix_of(feedback::stamp(at))
        }),
{
}

} // verus!
