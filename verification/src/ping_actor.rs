//! Commands to the one that owns the pings, and its replies.

use vstd::prelude::*;

use crate::ping;
use crate::ping::{
    DecisionModel, ErrorModel, ManagerModel, PingError, PingManager, PingModel, PingView,
    TriggerDecision,
};
use crate::text::slice;
use crate::time::{Moment, Timestamp};

verus! {

/// A command about pings.
#[derive(Debug)]
pub enum PingCommand {
    CreatePing { name: String, template: String, created_by: String, cooldown: Option<u64> },
    DeletePing { name: String },
    EditTemplate { name: String, template: String },
    AddMember { ping_name: String, username: String },
    RemoveMember { ping_name: String, username: String },
    TryRecordTrigger { ping_name: String, sender: String, default_cooldown: u128, public: bool },
    Snapshot,
    GetOne { name: String },
    ListForUser { username: String },
    IsMember { ping_name: String, username: String },
}

/// The reply to a command.
#[derive(Debug)]
pub enum PingReply {
    Done(Result<(), PingError>),
    Decision(TriggerDecision),
    Views(Vec<PingView>),
    One(Option<PingView>),
    Names(Vec<String>),
    Member(bool),
}

/// The reply to a command.
pub enum ReplyModel {
    Done(Result<(), ErrorModel>),
    Decision(DecisionModel),
    Views(Seq<(Seq<char>, PingModel)>),
    One(Option<(Seq<char>, PingModel)>),
    Names(Seq<Seq<char>>),
    Member(bool),
}

impl View for PingReply {
    type V = ReplyModel;

    open spec fn view(&self) -> ReplyModel {
        match self {
            PingReply::Done(r) => ReplyModel::Done(ping::result_model(*r)),
            PingReply::Decision(d) => ReplyModel::Decision(d@),
            PingReply::Views(v) => ReplyModel::Views(ping::view_models(v@)),
            PingReply::One(o) => ReplyModel::One(
                match o {
                    Some(v) => Some(v@),
                    None => None,
                },
            ),
            PingReply::Names(v) => ReplyModel::Names(slice::texts(v@)),
            PingReply::Member(b) => ReplyModel::Member(*b),
        }
    }
}

impl ManagerModel {
    /// The manager after a wish to fire a ping, and what comes of it.
    pub open spec fn fire(
        self,
        name: Seq<char>,
        sender: Seq<char>,
        default_cooldown: u128,
        public: bool,
        now: Moment,
        at: Timestamp,
    ) -> (ManagerModel, DecisionModel) {
        let d = self.decision(name, sender, default_cooldown, public, now);
        (
            if d is Fire {
                self.triggered(name, now, at)
            } else {
                self
            },
            d,
        )
    }

    /// The manager after a command, and the reply.
    pub open spec fn processed(self, command: PingCommand, now: Moment, at: Timestamp) -> (
        ManagerModel,
        ReplyModel,
    ) {
        match command {
            PingCommand::CreatePing { name, template, created_by, cooldown } => {
                let (m, r) = self.create(name@, template@, created_by@, cooldown);
                (m, ReplyModel::Done(r))
            },
            PingCommand::DeletePing { name } => {
                let (m, r) = self.delete(name@);
                (m, ReplyModel::Done(r))
            },
            PingCommand::EditTemplate { name, template } => {
                let (m, r) = self.edit(name@, template@);
                (m, ReplyModel::Done(r))
            },
            PingCommand::AddMember { ping_name, username } => {
                let (m, r) = self.join(ping_name@, username@);
                (m, ReplyModel::Done(r))
            },
            PingCommand::RemoveMember { ping_name, username } => {
                let (m, r) = self.leave(ping_name@, username@);
                (m, ReplyModel::Done(r))
            },
            PingCommand::TryRecordTrigger { ping_name, sender, default_cooldown, public } => {
                let (m, d) = self.fire(ping_name@, sender@, default_cooldown, public, now, at);
                (m, ReplyModel::Decision(d))
            },
            PingCommand::Snapshot => (self, ReplyModel::Views(self.pings)),
            PingCommand::GetOne { name } => (
                self,
                ReplyModel::One(
                    match ping::ping_of(self.pings, name@) {
                        Some(p) => Some((name@, p)),
                        None => None,
                    },
                ),
            ),
            PingCommand::ListForUser { username } => (
                self,
                ReplyModel::Names(self.pings_of(username@)),
            ),
            PingCommand::IsMember { ping_name, username } => (
                self,
                ReplyModel::Member(self.has_member(ping_name@, username@)),
            ),
        }
    }
}

/// Processes a command.
pub fn process(manager: &mut PingManager, command: PingCommand, now: Moment, at: Timestamp) -> (r:
    PingReply)
    requires
        old(manager)@.well_formed(),
    ensures
        (final(manager)@, r@) == old(manager)@.processed(command, now, at),
{
    match command {
        PingCommand::CreatePing { name, template, created_by, cooldown } => PingReply::Done(
            manager.create_ping(name.as_str(), template, created_by, cooldown),
        ),
        PingCommand::DeletePing { name } => PingReply::Done(manager.delete_ping(name.as_str())),
        PingCommand::EditTemplate { name, template } => PingReply::Done(
            manager.edit_template(name.as_str(), template),
        ),
        PingCommand::AddMember { ping_name, username } => PingReply::Done(
            manager.add_member(ping_name.as_str(), username.as_str()),
        ),
        PingCommand::RemoveMember { ping_name, username } => PingReply::Done(
            manager.remove_member(ping_name.as_str(), username.as_str()),
        ),
        PingCommand::TryRecordTrigger { ping_name, sender, default_cooldown, public } => {
            PingReply::Decision(
                manager.try_record_trigger(
                    ping_name.as_str(),
                    sender.as_str(),
                    default_cooldown,
                    public,
                    now,
                    at,
                ),
            )
        },
        PingCommand::Snapshot => PingReply::Views(manager.snapshot()),
        PingCommand::GetOne { name } => PingReply::One(manager.get_one(name.as_str())),
        PingCommand::ListForUser { username } => PingReply::Names(
            manager.list_pings_for_user_owned(username.as_str()),
        ),
        PingCommand::IsMember { ping_name, username } => PingReply::Member(
            manager.is_member(ping_name.as_str(), username.as_str()),
        ),
    }
}

/// Whether the store is to be saved after the reply: something was done, or a
/// ping was fired.
pub open spec fn saves(reply: ReplyModel) -> bool {
    match reply {
        ReplyModel::Done(r) => r is Ok,
        ReplyModel::Decision(d) => d is Fire,
        _ => false,
    }
}

/// Whether the store is to be saved after the reply.
pub fn needs_save(reply: &PingReply) -> (b: bool)
    ensures
        b == saves(reply@),
{
    match reply {
        PingReply::Done(Ok(_)) => true,
        PingReply::Decision(TriggerDecision::Fire(_)) => true,
        _ => false,
    }
}

/// Whether the names of the pings may be others after a command.
pub open spec fn concerns_names(command: PingCommand) -> bool {
    command is CreatePing || command is DeletePing
}

/// Whether the names of the pings may be others after a command.
pub fn publishes_names(command: &PingCommand) -> (b: bool)
    ensures
        b == concerns_names(*command),
{
    match command {
        PingCommand::CreatePing { .. } => true,
        PingCommand::DeletePing { .. } => true,
        _ => false,
    }
}

/// The names of pings.
pub open spec fn ping_names(pings: Seq<(Seq<char>, PingModel)>) -> Seq<Seq<char>> {
    pings.map_values(|p: (Seq<char>, PingModel)| p.0)
}

/// Where names need not be published anew, they are the same as before.
pub proof fn law_published_names_are_current(
    m: ManagerModel,
    command: PingCommand,
    now: Moment,
    at: Timestamp,
)
    requires
        !concerns_names(command),
    ensures
        ping_names(m.processed(command, now, at).0.pings) == ping_names(m.pings),
{
    let after = m.processed(command, now, at).0;
    match command {
        PingCommand::EditTemplate { name, .. } => {
            crate::lists::lemma_first_where(m.pings, ping::named(name@));
        },
        PingCommand::AddMember { ping_name, .. } => {
            crate::lists::lemma_first_where(m.pings, ping::named(ping_name@));
        },
        PingCommand::RemoveMember { ping_name, .. } => {
            crate::lists::lemma_first_where(m.pings, ping::named(ping_name@));
        },
        PingCommand::TryRecordTrigger { ping_name, .. } => {
            crate::lists::lemma_first_where(m.pings, ping::named(ping_name@));
        },
        _ => {},
    }
    assert(ping_names(after.pings) =~= ping_names(m.pings));
}

/// Commands keep the pings in order: no two with one name, every template in
/// one line, no user a member twice.
pub proof fn law_commands_keep_order(
    m: ManagerModel,
    command: PingCommand,
    now: Moment,
    at: Timestamp,
)
    requires
        m.well_formed(),
    ensures
        m.processed(command, now, at).0.well_formed(),
{
    match command {
        PingCommand::CreatePing { name, template, created_by, cooldown } => {
            let (after, r) = m.create(name@, template@, created_by@, cooldown);
            if r is Ok {
                crate::ping_laws::law_a_new_ping_disturbs_no_other(
                    m,
                    crate::text::chars::ascii_lowered(name@),
                    after.pings.last().1,
                    Seq::empty(),
                );
            }
        },
        PingCommand::DeletePing { name } => {
            if m.delete(name@).1 is Ok {
                lemma_deletion_keeps_order(m, name@);
            }
        },
        PingCommand::EditTemplate { name, template } => {
            if m.edit(name@, template@).1 is Ok {
                let i = ping::place_of(m.pings, name@)->0;
                crate::ping_laws::lemma_ping_of(m.pings, name@);
                crate::ping_laws::law_a_changed_ping_disturbs_no_other(
                    m,
                    name@,
                    PingModel { template: template@, ..m.pings[i].1 },
                    Seq::empty(),
                );
            }
        },
        PingCommand::AddMember { ping_name, username } => {
            if m.join(ping_name@, username@).1 is Ok {
                let i = ping::place_of(m.pings, ping_name@)->0;
                crate::ping_laws::lemma_ping_of(m.pings, ping_name@);
                let p = m.pings[i].1;
                let login = slice::lowercased(username@);
                crate::ping_laws::law_leaving_undoes_joining(p.members, login);
                crate::ping_laws::law_a_changed_ping_disturbs_no_other(
                    m,
                    ping_name@,
                    PingModel { members: p.members.push(login), ..p },
                    Seq::empty(),
                );
            }
        },
        PingCommand::RemoveMember { ping_name, username } => {
            if m.leave(ping_name@, username@).1 is Ok {
                let i = ping::place_of(m.pings, ping_name@)->0;
                crate::ping_laws::lemma_ping_of(m.pings, ping_name@);
                let p = m.pings[i].1;
                let login = slice::lowercased(username@);
                crate::ping_laws::law_leaving_concerns_one_user(p.members, login, login);
                crate::ping_laws::law_a_changed_ping_disturbs_no_other(
                    m,
                    ping_name@,
                    PingModel { members: p.members.remove(p.members.index_of(login)), ..p },
                    Seq::empty(),
                );
            }
        },
        PingCommand::TryRecordTrigger { ping_name, sender, default_cooldown, public } => {
            if m.decision(ping_name@, sender@, default_cooldown, public, now) is Fire {
                crate::ping_laws::law_fired_pings_cool_down(
                    m,
                    ping_name@,
                    now,
                    at,
                    default_cooldown,
                    now,
                );
            }
        },
        _ => {},
    }
}

proof fn lemma_deletion_keeps_order(m: ManagerModel, name: Seq<char>)
    requires
        m.well_formed(),
        ping::place_of(m.pings, name) is Some,
    ensures
        m.delete(name).0.well_formed(),
{
    crate::ping_laws::law_a_deleted_ping_is_gone(m, name, name);
    crate::ping_laws::lemma_ping_of(m.pings, name);
    let i = ping::place_of(m.pings, name)->0;
    let after = m.delete(name).0;
    assert forall|k: int| 0 <= k < after.pings.len() implies (
    #[trigger] after.pings[k]).1.well_formed() by {
        assert(after.pings[k] == m.pings[if k < i {
            k
        } else {
            k + 1
        }]);
    }
    crate::lists::lemma_first_where(m.last_triggered, ping::fired_as(name));
    if let Some(t) = ping::trigger_place(m.last_triggered, name) {
        assert forall|a: int, b: int| 0 <= a < b < after.last_triggered.len() implies (
        #[trigger] after.last_triggered[a]).0 != (#[trigger] after.last_triggered[b]).0 by {
            let x = if a < t {
                a
            } else {
                a + 1
            };
            let y = if b < t {
                b
            } else {
                b + 1
            };
            assert(after.last_triggered[a] == m.last_triggered[x]);
            assert(after.last_triggered[b] == m.last_triggered[y]);
        }
    }
}

/// No change of the pings goes unsaved.
pub proof fn law_changes_are_saved(
    m: ManagerModel,
    command: PingCommand,
    now: Moment,
    at: Timestamp,
)
    requires
        m.well_formed(),
    ensures
        m.processed(command, now, at).0 != m ==> saves(m.processed(command, now, at).1),
        saves(m.processed(command, now, at).1) ==> !(command is Snapshot) && !(command is GetOne)
            && !(command is ListForUser) && !(command is IsMember),
{
}

} // verus!
