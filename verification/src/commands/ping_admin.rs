//! Managing pings from the chat.

use vstd::prelude::*;
use vstd::string::StringExecFns;

use super::is_admin;
use crate::commands;
use crate::ping;
use crate::ping::ErrorModel;
use crate::ping_actor::{PingCommand, PingReply, ReplyModel};
use crate::text::{search, slice};

verus! {

pub const PING_USAGE: &'static str =
    "Nutze: join, leave, list (oder create, delete, edit, add, remove als Mod)";

/// What a user wants of the pings.
#[derive(Debug)]
pub enum AdminOp {
    Create { name: String, template: String },
    Delete { name: String },
    Edit { name: String, template: String },
    Add { name: String, user: String },
    Remove { name: String, user: String },
    Join { name: String },
    Leave { name: String },
    List,
}

/// What an operation holds.
pub enum OpModel {
    Create { name: Seq<char>, template: Seq<char> },
    Delete { name: Seq<char> },
    Edit { name: Seq<char>, template: Seq<char> },
    Add { name: Seq<char>, user: Seq<char> },
    Remove { name: Seq<char>, user: Seq<char> },
    Join { name: Seq<char> },
    Leave { name: Seq<char> },
    List,
}

impl View for AdminOp {
    type V = OpModel;

    open spec fn view(&self) -> OpModel {
        match *self {
            AdminOp::Create { name, template } => OpModel::Create {
                name: name@,
                template: template@,
            },
            AdminOp::Delete { name } => OpModel::Delete { name: name@ },
            AdminOp::Edit { name, template } => OpModel::Edit { name: name@, template: template@ },
            AdminOp::Add { name, user } => OpModel::Add { name: name@, user: user@ },
            AdminOp::Remove { name, user } => OpModel::Remove { name: name@, user: user@ },
            AdminOp::Join { name } => OpModel::Join { name: name@ },
            AdminOp::Leave { name } => OpModel::Leave { name: name@ },
            AdminOp::List => OpModel::List,
        }
    }
}

/// What comes of a call of the command.
#[derive(Debug)]
pub enum AdminStep {
    /// The user may not.
    Denied,
    Reply(String),
    Run(AdminOp),
}

/// What a step holds.
pub enum StepModel {
    Denied,
    Reply(Seq<char>),
    Run(OpModel),
}

impl View for AdminStep {
    type V = StepModel;

    open spec fn view(&self) -> StepModel {
        match *self {
            AdminStep::Denied => StepModel::Denied,
            AdminStep::Reply(s) => StepModel::Reply(s@),
            AdminStep::Run(op) => StepModel::Run(op@),
        }
    }
}

/// Whether a word asks for something that only administrators may do.
pub open spec fn privileged(word: Seq<char>) -> bool {
    word == "create"@ || word == "delete"@ || word == "edit"@ || word == "add"@ || word
        == "remove"@
}

/// The words after the second, with spaces between them.
pub open spec fn template_in(args: Seq<Seq<char>>) -> Seq<char> {
    slice::joined(args.skip(2), " "@)
}

/// What comes of a call of the command. `member` is the login that the third
/// word stands for. Names of pings are in lower case.
pub open spec fn requested(args: Seq<Seq<char>>, admin: bool, member: Seq<char>) -> StepModel {
    let word = if args.len() == 0 {
        ""@
    } else {
        args[0]
    };
    let name = slice::lowercased(args[1]);
    if privileged(word) && !admin {
        StepModel::Denied
    } else if word == "create"@ {
        if args.len() < 3 {
            StepModel::Reply("Nutze: !p create <name> <template>"@)
        } else {
            StepModel::Run(OpModel::Create { name, template: template_in(args) })
        }
    } else if word == "delete"@ {
        if args.len() < 2 {
            StepModel::Reply("Nutze: !p delete <name>"@)
        } else {
            StepModel::Run(OpModel::Delete { name })
        }
    } else if word == "edit"@ {
        if args.len() < 3 {
            StepModel::Reply("Nutze: !p edit <name> <template>"@)
        } else {
            StepModel::Run(OpModel::Edit { name, template: template_in(args) })
        }
    } else if word == "add"@ {
        if args.len() < 3 {
            StepModel::Reply("Nutze: !p add <name> <user>"@)
        } else {
            StepModel::Run(OpModel::Add { name, user: member })
        }
    } else if word == "remove"@ {
        if args.len() < 3 {
            StepModel::Reply("Nutze: !p remove <name> <user>"@)
        } else {
            StepModel::Run(OpModel::Remove { name, user: member })
        }
    } else if word == "join"@ {
        if args.len() < 2 {
            StepModel::Reply("Nutze: !p join <name>"@)
        } else {
            StepModel::Run(OpModel::Join { name })
        }
    } else if word == "leave"@ {
        if args.len() < 2 {
            StepModel::Reply("Nutze: !p leave <name>"@)
        } else {
            StepModel::Run(OpModel::Leave { name })
        }
    } else if word == "list"@ {
        StepModel::Run(OpModel::List)
    } else {
        StepModel::Reply(PING_USAGE@)
    }
}

/// The words after the second, with spaces between them.
fn join_template(args: &Vec<String>) -> (r: String)
    requires
        args@.len() >= 2,
    ensures
        r@ == template_in(slice::texts(args@)),
{
    let mut rest: Vec<String> = Vec::new();
    let mut i: usize = 2;
    while i < args.len()
        invariant
            2 <= i <= args@.len(),
            rest@.len() == i - 2,
            forall|j: int| 0 <= j < rest@.len() ==> (#[trigger] rest@[j])@ == args@[j + 2]@,
        decreases args@.len() - i,
    {
        rest.push(args[i].clone());
        i = i + 1;
    }
    assert(slice::texts(rest@) =~= slice::texts(args@).skip(2));
    slice::join(&rest, " ")
}

/// The name of a ping: in lower case.
pub fn normalize_ping_name(name: &str) -> (r: String)
    ensures
        r@ == slice::lowercased(name@),
{
    slice::to_lower(name)
}

/// What comes of a call of the command.
fn read_request(args: &Vec<String>, admin: bool, member: &str) -> (r: AdminStep)
    ensures
        r@ == requested(slice::texts(args@), admin, member@),
{
    let ghost all = slice::texts(args@);
    let word: &str = if args.len() == 0 {
        ""
    } else {
        args[0].as_str()
    };
    assert(args@.len() > 0 ==> all[0] == args@[0]@);
    assert(args@.len() > 1 ==> all[1] == args@[1]@);
    let create = slice::same(word, "create");
    let delete = slice::same(word, "delete");
    let edit = slice::same(word, "edit");
    let append = slice::same(word, "add");
    let remove = slice::same(word, "remove");
    if (create || delete || edit || append || remove) && !admin {
        return AdminStep::Denied;
    }
    let n: usize = args.len();
    if create {
        if n < 3 {
            return AdminStep::Reply("Nutze: !p create <name> <template>".to_owned());
        }
        return AdminStep::Run(
            AdminOp::Create {
                name: normalize_ping_name(args[1].as_str()),
                template: join_template(args),
            },
        );
    }
    if delete {
        if n < 2 {
            return AdminStep::Reply("Nutze: !p delete <name>".to_owned());
        }
        return AdminStep::Run(AdminOp::Delete { name: normalize_ping_name(args[1].as_str()) });
    }
    if edit {
        if n < 3 {
            return AdminStep::Reply("Nutze: !p edit <name> <template>".to_owned());
        }
        return AdminStep::Run(
            AdminOp::Edit {
                name: normalize_ping_name(args[1].as_str()),
                template: join_template(args),
            },
        );
    }
    if append {
        if n < 3 {
            return AdminStep::Reply("Nutze: !p add <name> <user>".to_owned());
        }
        return AdminStep::Run(
            AdminOp::Add { name: normalize_ping_name(args[1].as_str()), user: member.to_owned() },
        );
    }
    if remove {
        if n < 3 {
            return AdminStep::Reply("Nutze: !p remove <name> <user>".to_owned());
        }
        return AdminStep::Run(
            AdminOp::Remove {
                name: normalize_ping_name(args[1].as_str()),
                user: member.to_owned(),
            },
        );
    }
    if slice::same(word, "join") {
        if n < 2 {
            return AdminStep::Reply("Nutze: !p join <name>".to_owned());
        }
        return AdminStep::Run(AdminOp::Join { name: normalize_ping_name(args[1].as_str()) });
    }
    if slice::same(word, "leave") {
        if n < 2 {
            return AdminStep::Reply("Nutze: !p leave <name>".to_owned());
        }
        return AdminStep::Run(AdminOp::Leave { name: normalize_ping_name(args[1].as_str()) });
    }
    if slice::same(word, "list") {
        return AdminStep::Run(AdminOp::List);
    }
    AdminStep::Reply(PING_USAGE.to_owned())
}

/// The command that manages pings.
#[derive(Debug)]
pub struct PingAdminCommand {
    pub hidden_admin_ids: Vec<String>,
}

impl PingAdminCommand {
    pub fn new(hidden_admin_ids: Vec<String>) -> (r: PingAdminCommand)
        ensures
            r.hidden_admin_ids == hidden_admin_ids,
    {
        PingAdminCommand { hidden_admin_ids }
    }

    /// What comes of a call of the command by a user with these badges.
    pub fn execute(&self, badges: &Vec<String>, user_id: &str, args: &Vec<String>, member: &str) -> (r:
        AdminStep)
        ensures
            r@ == requested(
                slice::texts(args@),
                commands::administers(
                    slice::texts(badges@),
                    user_id@,
                    slice::texts(self.hidden_admin_ids@),
                ),
                member@,
            ),
    {
        read_request(args, is_admin(badges, user_id, &self.hidden_admin_ids), member)
    }
}

/// Whether a command carries out an operation of a user.
pub open spec fn carries_out(command: PingCommand, op: OpModel, login: Seq<char>) -> bool {
    match op {
        OpModel::Create { name, template } => match command {
            PingCommand::CreatePing { name: n, template: t, created_by, cooldown } => n@ == name
                && t@ == template && created_by@ == login && cooldown is None,
            _ => false,
        },
        OpModel::Delete { name } => match command {
            PingCommand::DeletePing { name: n } => n@ == name,
            _ => false,
        },
        OpModel::Edit { name, template } => match command {
            PingCommand::EditTemplate { name: n, template: t } => n@ == name && t@ == template,
            _ => false,
        },
        OpModel::Add { name, user } => match command {
            PingCommand::AddMember { ping_name, username } => ping_name@ == name && username@
                == user,
            _ => false,
        },
        OpModel::Remove { name, user } => match command {
            PingCommand::RemoveMember { ping_name, username } => ping_name@ == name && username@
                == user,
            _ => false,
        },
        OpModel::Join { name } => match command {
            PingCommand::AddMember { ping_name, username } => ping_name@ == name && username@
                == login,
            _ => false,
        },
        OpModel::Leave { name } => match command {
            PingCommand::RemoveMember { ping_name, username } => ping_name@ == name && username@
                == login,
            _ => false,
        },
        OpModel::List => match command {
            PingCommand::ListForUser { username } => username@ == login,
            _ => false,
        },
    }
}

/// The command that carries out an operation of a user.
pub fn command_for(op: &AdminOp, login: &str) -> (r: PingCommand)
    ensures
        carries_out(r, op@, login@),
{
    let login = login.to_owned();
    match op {
        AdminOp::Create { name, template } => PingCommand::CreatePing {
            name: name.clone(),
            template: template.clone(),
            created_by: login,
            cooldown: None,
        },
        AdminOp::Delete { name } => PingCommand::DeletePing { name: name.clone() },
        AdminOp::Edit { name, template } => PingCommand::EditTemplate {
            name: name.clone(),
            template: template.clone(),
        },
        AdminOp::Add { name, user } => PingCommand::AddMember {
            ping_name: name.clone(),
            username: user.clone(),
        },
        AdminOp::Remove { name, user } => PingCommand::RemoveMember {
            ping_name: name.clone(),
            username: user.clone(),
        },
        AdminOp::Join { name } => PingCommand::AddMember {
            ping_name: name.clone(),
            username: login,
        },
        AdminOp::Leave { name } => PingCommand::RemoveMember {
            ping_name: name.clone(),
            username: login,
        },
        AdminOp::List => PingCommand::ListForUser { username: login },
    }
}

/// What the user is told once something was done.
pub open spec fn done_text(op: OpModel) -> Seq<char> {
    match op {
        OpModel::Create { name, .. } => "Ping \""@ + name + "\" erstellt Okayge"@,
        OpModel::Delete { name } => "Ping \""@ + name + "\" gelöscht Okayge"@,
        OpModel::Edit { name, .. } => "Ping \""@ + name + "\" updated SeemsGood"@,
        OpModel::Add { name, user } => user + " zu \""@ + name + "\" hinzugefügt Okayge"@,
        OpModel::Remove { name, user } => user + " aus \""@ + name + "\" entfernt Okayge"@,
        _ => "Hab ich gemacht Okayge"@,
    }
}

/// What the user is told once something failed. To those who join or leave
/// themselves it is said shorter, unless there is no such ping.
pub open spec fn failed_text(op: OpModel, cause: Seq<char>) -> Seq<char> {
    if search::contains(cause, "gibt es nicht"@) {
        cause + " FDM"@
    } else {
        match op {
            OpModel::Join { .. } => "Bist du schon FDM"@,
            OpModel::Leave { .. } => "Bist du nicht drin FDM"@,
            _ => cause + " FDM"@,
        }
    }
}

/// What the user is told once something was refused.
pub open spec fn refused_text(op: OpModel, e: ErrorModel) -> Seq<char> {
    failed_text(op, e.text())
}

/// What the user is told in the end.
pub open spec fn told(op: OpModel, reply: ReplyModel) -> Seq<char> {
    match reply {
        ReplyModel::Done(Ok(_)) => done_text(op),
        ReplyModel::Done(Err(e)) => refused_text(op, e),
        ReplyModel::Names(names) => if names.len() == 0 {
            "Keine Pings"@
        } else {
            slice::joined(names, " "@)
        },
        _ => Seq::empty(),
    }
}

/// Whether a reply is one to the operation: names to a wish for a list, and
/// success or failure to any other.
pub open spec fn answers(reply: ReplyModel, op: OpModel) -> bool {
    match op {
        OpModel::List => reply is Names,
        _ => reply is Done,
    }
}

/// A text around a name.
fn about(before: &str, name: &str, after: &str) -> (r: String)
    ensures
        r@ == before@ + name@ + after@,
{
    let mut r = before.to_owned();
    r.append(name);
    r.append(after);
    r
}

/// What the user is told once something was done.
fn done_reply(op: &AdminOp) -> (r: String)
    ensures
        r@ == done_text(op@),
{
    match op {
        AdminOp::Create { name, .. } => about("Ping \"", name.as_str(), "\" erstellt Okayge"),
        AdminOp::Delete { name } => about("Ping \"", name.as_str(), "\" gelöscht Okayge"),
        AdminOp::Edit { name, .. } => about("Ping \"", name.as_str(), "\" updated SeemsGood"),
        AdminOp::Add { name, user } => {
            let mut r = user.clone();
            r.append(" zu \"");
            r.append(name.as_str());
            r.append("\" hinzugefügt Okayge");
            r
        },
        AdminOp::Remove { name, user } => {
            let mut r = user.clone();
            r.append(" aus \"");
            r.append(name.as_str());
            r.append("\" entfernt Okayge");
            r
        },
        _ => "Hab ich gemacht Okayge".to_owned(),
    }
}

/// What the user is told once something failed, such as the saving of a change.
pub fn failure_reply(op: &AdminOp, cause: &str) -> (r: String)
    ensures
        r@ == failed_text(op@, cause@),
{
    if !search::has(cause, "gibt es nicht") {
        if let AdminOp::Join { .. } = op {
            return "Bist du schon FDM".to_owned();
        }
        if let AdminOp::Leave { .. } = op {
            return "Bist du nicht drin FDM".to_owned();
        }
    }
    let mut text = cause.to_owned();
    text.append(" FDM");
    text
}

/// What the user is told in the end.
pub fn reply_for(op: &AdminOp, reply: &PingReply) -> (r: String)
    requires
        answers(reply@, op@),
    ensures
        r@ == told(op@, reply@),
{
    match reply {
        PingReply::Done(Ok(_)) => done_reply(op),
        PingReply::Done(Err(e)) => failure_reply(op, e.message().as_str()),
        PingReply::Names(names) => if names.len() == 0 {
            "Keine Pings".to_owned()
        } else {
            slice::join(names, " ")
        },
        _ => String::new(),
    }
}

/// Whoever may not administer changes nothing but their own membership.
pub proof fn law_only_administrators_change_pings(args: Seq<Seq<char>>, member: Seq<char>)
    ensures
        match requested(args, false, member) {
            StepModel::Run(op) => op is Join || op is Leave || op is List,
            _ => true,
        },
{
}

/// The command that carries out an operation gets a reply to it.
pub proof fn law_commands_are_answered(
    m: ping::ManagerModel,
    command: PingCommand,
    op: OpModel,
    login: Seq<char>,
    now: crate::time::Moment,
    at: crate::time::Timestamp,
)
    requires
        carries_out(command, op, login),
    ensures
        answers(m.processed(command, now, at).1, op),
{
}

/// Whoever asks for a ping that does not exist is told so.
pub proof fn law_missing_pings_are_named(op: OpModel, name: Seq<char>)
    ensures
        refused_text(op, ErrorModel::Missing { name }) == "Ping \""@ + name + "\" gibt es nicht"@
            + " FDM"@,
{
    reveal_strlit("\" gibt es nicht");
    reveal_strlit("gibt es nicht");
    let text = ErrorModel::Missing { name }.text();
    let needle = "gibt es nicht"@;
    let at = text.len() - needle.len();
    assert(text.subrange(at, at + needle.len()) =~= needle);
    assert(search::occurs_at(text, needle, at));
}

} // verus!
