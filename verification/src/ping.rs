//! Community pings: named groups of users that a template addresses.

use vstd::prelude::*;
use vstd::string::StringExecFns;

use crate::lists;
use crate::text::{chars, search, slice};
use crate::time::{Moment, Timestamp};

verus! {

/// A ping: whom it addresses, and how.
#[derive(Debug)]
pub struct Ping {
    pub template: String,
    /// The users, each once.
    pub members: Vec<String>,
    /// Seconds between two firings, where the ping has its own.
    pub cooldown: Option<u64>,
    pub created_by: String,
    pub last_fired_at: Option<Timestamp>,
    pub fire_count: u64,
}

/// What a ping holds.
#[verifier::ext_equal]
pub struct PingModel {
    pub template: Seq<char>,
    pub members: Seq<Seq<char>>,
    pub cooldown: Option<u64>,
    pub created_by: Seq<char>,
    pub last_fired_at: Option<Timestamp>,
    pub fire_count: u64,
}

impl View for Ping {
    type V = PingModel;

    open spec fn view(&self) -> PingModel {
        PingModel {
            template: self.template@,
            members: slice::texts(self.members@),
            cooldown: self.cooldown,
            created_by: self.created_by@,
            last_fired_at: self.last_fired_at,
            fire_count: self.fire_count,
        }
    }
}

/// A ping as it is stored, under its name.
#[derive(Debug)]
pub struct NamedPing {
    pub name: String,
    pub ping: Ping,
}

impl View for NamedPing {
    type V = (Seq<char>, PingModel);

    open spec fn view(&self) -> (Seq<char>, PingModel) {
        (self.name@, self.ping@)
    }
}

/// All pings, each under its own name.
#[derive(Debug)]
pub struct PingStore {
    pub pings: Vec<NamedPing>,
}

pub open spec fn ping_models(v: Seq<NamedPing>) -> Seq<(Seq<char>, PingModel)> {
    v.map_values(|p: NamedPing| p@)
}

pub open spec fn trigger_models(v: Seq<(String, Moment)>) -> Seq<(Seq<char>, Moment)> {
    v.map_values(|t: (String, Moment)| (t.0@, t.1))
}

/// The pings, and when each was last fired.
#[derive(Debug)]
pub struct PingManager {
    pub store: PingStore,
    pub last_triggered: Vec<(String, Moment)>,
}

/// What the manager holds.
#[verifier::ext_equal]
pub struct ManagerModel {
    pub pings: Seq<(Seq<char>, PingModel)>,
    pub last_triggered: Seq<(Seq<char>, Moment)>,
}

impl View for PingManager {
    type V = ManagerModel;

    open spec fn view(&self) -> ManagerModel {
        ManagerModel {
            pings: ping_models(self.store.pings@),
            last_triggered: trigger_models(self.last_triggered@),
        }
    }
}

/// A template that fits into one line of chat.
pub open spec fn one_line(s: Seq<char>) -> bool {
    forall|i: int| 0 <= i < s.len() ==> !chars::control(#[trigger] s[i])
}

/// A ping has the name.
pub open spec fn named(name: Seq<char>) -> spec_fn((Seq<char>, PingModel)) -> bool {
    |p: (Seq<char>, PingModel)| p.0 == name
}

/// A firing is one under the name.
pub open spec fn fired_as(name: Seq<char>) -> spec_fn((Seq<char>, Moment)) -> bool {
    |t: (Seq<char>, Moment)| t.0 == name
}

/// The place of the ping with the name.
pub open spec fn place_of(pings: Seq<(Seq<char>, PingModel)>, name: Seq<char>) -> Option<int> {
    lists::first_where(pings, named(name))
}

/// The ping with the name.
pub open spec fn ping_of(pings: Seq<(Seq<char>, PingModel)>, name: Seq<char>) -> Option<PingModel> {
    match place_of(pings, name) {
        Some(i) => Some(pings[i].1),
        None => None,
    }
}

/// The place of the last firing under the name.
pub open spec fn trigger_place(v: Seq<(Seq<char>, Moment)>, name: Seq<char>) -> Option<int> {
    lists::first_where(v, fired_as(name))
}

/// When the ping with the name was last fired.
pub open spec fn last_trigger(v: Seq<(Seq<char>, Moment)>, name: Seq<char>) -> Option<Moment> {
    match trigger_place(v, name) {
        Some(i) => Some(v[i].1),
        None => None,
    }
}

/// No two pings have one name.
pub open spec fn names_distinct(pings: Seq<(Seq<char>, PingModel)>) -> bool {
    forall|i: int, j: int| 0 <= i < j < pings.len() ==> (#[trigger] pings[i]).0 != (
    #[trigger] pings[j]).0
}

impl PingModel {
    /// The template fits into one line, and no user is a member twice.
    pub open spec fn well_formed(self) -> bool {
        one_line(self.template) && self.members.no_duplicates()
    }
}

impl ManagerModel {
    /// No two pings have one name, every template fits into one line, and no
    /// user is a member of a ping twice.
    pub open spec fn well_formed(self) -> bool {
        &&& names_distinct(self.pings)
        &&& forall|i: int| 0 <= i < self.pings.len() ==> (#[trigger] self.pings[i]).1.well_formed()
        &&& forall|i: int, j: int|
            0 <= i < j < self.last_triggered.len() ==> (#[trigger] self.last_triggered[i]).0 != (
            #[trigger] self.last_triggered[j]).0
    }

    /// The manager with the ping at a place replaced.
    pub open spec fn with_ping(self, i: int, p: PingModel) -> ManagerModel {
        ManagerModel { pings: self.pings.update(i, (self.pings[i].0, p)), ..self }
    }
}

/// Why a request about pings is refused.
#[derive(Debug)]
pub enum PingError {
    EmptyName,
    BadName,
    BadTemplate,
    Exists { name: String },
    Missing { name: String },
    AlreadyMember { user: String, name: String },
    NotMember { user: String, name: String },
}

/// Why a request about pings is refused.
pub enum ErrorModel {
    EmptyName,
    BadName,
    BadTemplate,
    Exists { name: Seq<char> },
    Missing { name: Seq<char> },
    AlreadyMember { user: Seq<char>, name: Seq<char> },
    NotMember { user: Seq<char>, name: Seq<char> },
}

impl View for PingError {
    type V = ErrorModel;

    open spec fn view(&self) -> ErrorModel {
        match self {
            PingError::EmptyName => ErrorModel::EmptyName,
            PingError::BadName => ErrorModel::BadName,
            PingError::BadTemplate => ErrorModel::BadTemplate,
            PingError::Exists { name } => ErrorModel::Exists { name: name@ },
            PingError::Missing { name } => ErrorModel::Missing { name: name@ },
            PingError::AlreadyMember { user, name } => ErrorModel::AlreadyMember {
                user: user@,
                name: name@,
            },
            PingError::NotMember { user, name } => ErrorModel::NotMember {
                user: user@,
                name: name@,
            },
        }
    }
}

impl ErrorModel {
    pub open spec fn text(self) -> Seq<char> {
        match self {
            ErrorModel::EmptyName => "Ping-Name darf nicht leer sein"@,
            ErrorModel::BadName => "Ping-Name darf nur Buchstaben, Zahlen, - und _ enthalten"@,
            ErrorModel::BadTemplate =>
                "Template darf keine Steuerzeichen (z.B. Zeilenumbrüche) enthalten"@,
            ErrorModel::Exists { name } => "Ping \""@ + name + "\" gibt es schon"@,
            ErrorModel::Missing { name } => "Ping \""@ + name + "\" gibt es nicht"@,
            ErrorModel::AlreadyMember { user, name } => user + " ist schon in \""@ + name + "\""@,
            ErrorModel::NotMember { user, name } => user + " ist nicht in \""@ + name + "\""@,
        }
    }
}

impl PingError {
    /// The message for the user.
    pub fn message(&self) -> (r: String)
        ensures
            r@ == self@.text(),
    {
        match self {
            PingError::EmptyName => "Ping-Name darf nicht leer sein".to_owned(),
            PingError::BadName => {
                "Ping-Name darf nur Buchstaben, Zahlen, - und _ enthalten".to_owned()
            },
            PingError::BadTemplate => {
                "Template darf keine Steuerzeichen (z.B. Zeilenumbrüche) enthalten".to_owned()
            },
            PingError::Exists { name } => {
                let mut r = "Ping \"".to_owned();
                r.append(name.as_str());
                r.append("\" gibt es schon");
                r
            },
            PingError::Missing { name } => {
                let mut r = "Ping \"".to_owned();
                r.append(name.as_str());
                r.append("\" gibt es nicht");
                r
            },
            PingError::AlreadyMember { user, name } => {
                let mut r = user.clone();
                r.append(" ist schon in \"");
                r.append(name.as_str());
                r.append("\"");
                r
            },
            PingError::NotMember { user, name } => {
                let mut r = user.clone();
                r.append(" ist nicht in \"");
                r.append(name.as_str());
                r.append("\"");
                r
            },
        }
    }
}

/// What comes of the wish to fire a ping.
#[derive(Debug)]
pub enum TriggerDecision {
    Skip,
    /// The ping was fired a moment ago: nanoseconds that are left.
    OnCooldown(u128),
    /// The message that is to be sent.
    Fire(String),
}

/// What comes of the wish to fire a ping.
pub enum DecisionModel {
    Skip,
    OnCooldown(u128),
    Fire(Seq<char>),
}

impl View for TriggerDecision {
    type V = DecisionModel;

    open spec fn view(&self) -> DecisionModel {
        match self {
            TriggerDecision::Skip => DecisionModel::Skip,
            TriggerDecision::OnCooldown(left) => DecisionModel::OnCooldown(*left),
            TriggerDecision::Fire(text) => DecisionModel::Fire(text@),
        }
    }
}

/// Whether the template fits into one line of chat.
pub fn validate_template(template: &str) -> (r: Result<(), PingError>)
    ensures
        match r {
            Ok(_) => one_line(template@),
            Err(e) => !one_line(template@) && e@ == ErrorModel::BadTemplate,
        },
{
    let v = slice::chars_of(template);
    let mut i: usize = 0;
    while i < v.len()
        invariant
            i <= v@.len(),
            v@ == template@,
            forall|j: int| 0 <= j < i ==> !chars::control(#[trigger] template@[j]),
        decreases v@.len() - i,
    {
        if chars::is_control(v[i]) {
            assert(chars::control(template@[i as int]));
            return Err(PingError::BadTemplate);
        }
        i = i + 1;
    }
    Ok(())
}

/// A name that a ping can be given: letters, digits, `-` and `_`.
pub open spec fn good_name(name: Seq<char>) -> bool {
    forall|i: int|
        0 <= i < name.len() ==> chars::ascii_alphanumeric(#[trigger] name[i]) || name[i] == '-'
            || name[i] == '_'
}

fn is_good_name(name: &str) -> (b: bool)
    ensures
        b == good_name(name@),
{
    let v = slice::chars_of(name);
    let mut i: usize = 0;
    while i < v.len()
        invariant
            i <= v@.len(),
            v@ == name@,
            forall|j: int|
                0 <= j < i ==> chars::ascii_alphanumeric(#[trigger] name@[j]) || name@[j] == '-'
                    || name@[j] == '_',
        decreases v@.len() - i,
    {
        if !chars::is_ascii_alphanumeric(v[i]) && v[i] != '-' && v[i] != '_' {
            assert(!chars::ascii_alphanumeric(name@[i as int]));
            return false;
        }
        i = i + 1;
    }
    true
}

/// A member is addressed: anyone is, but for the sender where the template names
/// the sender itself.
pub open spec fn is_addressed(template: Seq<char>, sender: Seq<char>) -> spec_fn(Seq<char>) -> bool {
    |m: Seq<char>| !search::contains(template, "{sender}"@) || m != sender
}

/// The members whom a template addresses: all of them, or all but the sender
/// where the template names the sender itself.
pub open spec fn addressed(p: PingModel, sender: Seq<char>) -> Seq<Seq<char>> {
    p.members.filter(is_addressed(p.template, sender))
}

/// The members as they are addressed.
pub open spec fn mentions(members: Seq<Seq<char>>) -> Seq<char> {
    slice::joined(members.map_values(|m: Seq<char>| "@"@ + m), " "@)
}

/// The message of a ping, unless it would address nobody.
pub open spec fn rendered(p: PingModel, sender: Seq<char>) -> Option<Seq<char>> {
    if addressed(p, sender).len() == 0 {
        None
    } else {
        Some(
            search::replaced(
                search::replaced(p.template, "{mentions}"@, mentions(addressed(p, sender))),
                "{sender}"@,
                "@"@ + sender,
            ),
        )
    }
}

impl PingModel {
    /// The nanoseconds between two firings.
    pub open spec fn cooldown_nanos(self, default_cooldown: u128) -> u128 {
        match self.cooldown {
            Some(secs) => (secs as u128 * 1_000_000_000) as u128,
            None => default_cooldown,
        }
    }

    /// The ping after it has been fired.
    pub open spec fn fired(self, at: Timestamp) -> PingModel {
        PingModel {
            last_fired_at: Some(at),
            fire_count: if self.fire_count < u64::MAX {
                (self.fire_count + 1) as u64
            } else {
                u64::MAX
            },
            ..self
        }
    }
}

/// The nanoseconds from one moment to a later one.
pub open spec fn elapsed(from: Moment, to: Moment) -> int {
    if to.nanos >= from.nanos {
        to.nanos - from.nanos
    } else {
        0
    }
}

impl ManagerModel {
    pub open spec fn has_member(self, name: Seq<char>, user: Seq<char>) -> bool {
        match ping_of(self.pings, name) {
            Some(p) => p.members.contains(user),
            None => false,
        }
    }

    /// The nanoseconds that are left until the ping can be fired again.
    pub open spec fn remaining(self, name: Seq<char>, default_cooldown: u128, now: Moment) -> Option<
        u128,
    > {
        match (ping_of(self.pings, name), last_trigger(self.last_triggered, name)) {
            (Some(p), Some(last)) => {
                let cooldown = p.cooldown_nanos(default_cooldown);
                if elapsed(last, now) < cooldown {
                    Some((cooldown - elapsed(last, now)) as u128)
                } else {
                    None
                }
            },
            _ => None,
        }
    }

    /// The manager after the ping has been fired.
    pub open spec fn triggered(self, name: Seq<char>, now: Moment, at: Timestamp) -> ManagerModel {
        match place_of(self.pings, name) {
            None => self,
            Some(i) => ManagerModel {
                last_triggered: match trigger_place(self.last_triggered, name) {
                    Some(k) => self.last_triggered.update(k, (name, now)),
                    None => self.last_triggered.push((name, now)),
                },
                ..self.with_ping(i, self.pings[i].1.fired(at))
            },
        }
    }

    /// What comes of the wish to fire a ping.
    pub open spec fn decision(
        self,
        name: Seq<char>,
        sender: Seq<char>,
        default_cooldown: u128,
        public: bool,
        now: Moment,
    ) -> DecisionModel {
        if !public && !self.has_member(name, sender) {
            DecisionModel::Skip
        } else {
            match self.remaining(name, default_cooldown, now) {
                Some(left) => DecisionModel::OnCooldown(left),
                None => match ping_of(self.pings, name) {
                    Some(p) => match rendered(p, sender) {
                        Some(text) => DecisionModel::Fire(text),
                        None => DecisionModel::Skip,
                    },
                    None => DecisionModel::Skip,
                },
            }
        }
    }
}

/// What a result holds.
pub open spec fn result_model(r: Result<(), PingError>) -> Result<(), ErrorModel> {
    match r {
        Ok(_) => Ok(()),
        Err(e) => Err(e@),
    }
}

impl ManagerModel {
    /// The manager after the wish to create a ping, and what comes of it.
    pub open spec fn create(
        self,
        name: Seq<char>,
        template: Seq<char>,
        created_by: Seq<char>,
        cooldown: Option<u64>,
    ) -> (ManagerModel, Result<(), ErrorModel>) {
        let name = chars::ascii_lowered(name);
        if name.len() == 0 {
            (self, Err(ErrorModel::EmptyName))
        } else if !good_name(name) {
            (self, Err(ErrorModel::BadName))
        } else if !one_line(template) {
            (self, Err(ErrorModel::BadTemplate))
        } else if place_of(self.pings, name) is Some {
            (self, Err(ErrorModel::Exists { name }))
        } else {
            (
                ManagerModel {
                    pings: self.pings.push(
                        (
                            name,
                            PingModel {
                                template,
                                members: Seq::empty(),
                                cooldown,
                                created_by,
                                last_fired_at: None,
                                fire_count: 0,
                            },
                        ),
                    ),
                    ..self
                },
                Ok(()),
            )
        }
    }

    /// The manager after the wish to delete a ping, and what comes of it.
    pub open spec fn delete(self, name: Seq<char>) -> (ManagerModel, Result<(), ErrorModel>) {
        match place_of(self.pings, name) {
            Some(i) => (
                ManagerModel {
                    pings: self.pings.remove(i),
                    last_triggered: match trigger_place(self.last_triggered, name) {
                        Some(k) => self.last_triggered.remove(k),
                        None => self.last_triggered,
                    },
                },
                Ok(()),
            ),
            None => (self, Err(ErrorModel::Missing { name })),
        }
    }

    /// The manager after the wish to change a template, and what comes of it.
    pub open spec fn edit(self, name: Seq<char>, template: Seq<char>) -> (
        ManagerModel,
        Result<(), ErrorModel>,
    ) {
        if !one_line(template) {
            (self, Err(ErrorModel::BadTemplate))
        } else {
            match place_of(self.pings, name) {
                Some(i) => (
                    self.with_ping(i, PingModel { template, ..self.pings[i].1 }),
                    Ok(()),
                ),
                None => (self, Err(ErrorModel::Missing { name })),
            }
        }
    }

    /// The manager after the wish to add a user, and what comes of it.
    pub open spec fn join(self, name: Seq<char>, user: Seq<char>) -> (
        ManagerModel,
        Result<(), ErrorModel>,
    ) {
        match place_of(self.pings, name) {
            Some(i) => {
                let p = self.pings[i].1;
                let login = slice::lowercased(user);
                if p.members.contains(login) {
                    (self, Err(ErrorModel::AlreadyMember { user, name }))
                } else {
                    (
                        self.with_ping(i, PingModel { members: p.members.push(login), ..p }),
                        Ok(()),
                    )
                }
            },
            None => (self, Err(ErrorModel::Missing { name })),
        }
    }

    /// The manager after the wish to remove a user, and what comes of it.
    pub open spec fn leave(self, name: Seq<char>, user: Seq<char>) -> (
        ManagerModel,
        Result<(), ErrorModel>,
    ) {
        match place_of(self.pings, name) {
            Some(i) => {
                let p = self.pings[i].1;
                let login = slice::lowercased(user);
                if p.members.contains(login) {
                    (
                        self.with_ping(
                            i,
                            PingModel {
                                members: p.members.remove(p.members.index_of(login)),
                                ..p
                            },
                        ),
                        Ok(()),
                    )
                } else {
                    (self, Err(ErrorModel::NotMember { user, name }))
                }
            },
            None => (self, Err(ErrorModel::Missing { name })),
        }
    }

    /// The names of the pings of which the user is a member.
    pub open spec fn pings_of(self, user: Seq<char>) -> Seq<Seq<char>> {
        self.pings.filter(has_user(user)).map_values(|p: (Seq<char>, PingModel)| p.0)
    }
}

/// A ping has the user among its members.
pub open spec fn has_user(user: Seq<char>) -> spec_fn((Seq<char>, PingModel)) -> bool {
    |p: (Seq<char>, PingModel)| p.1.members.contains(user)
}

/// A ping has a template that fits into one line.
pub open spec fn fits_one_line() -> spec_fn((Seq<char>, PingModel)) -> bool {
    |p: (Seq<char>, PingModel)| one_line(p.1.template)
}

/// The place of a text in a list.
fn position(list: &Vec<String>, text: &str) -> (r: Option<usize>)
    ensures
        match r {
            Some(i) => i < list@.len() && slice::texts(list@)[i as int] == text@,
            None => !slice::texts(list@).contains(text@),
        },
{
    let mut i: usize = 0;
    while i < list.len()
        invariant
            i <= list@.len(),
            forall|j: int| 0 <= j < i ==> #[trigger] slice::texts(list@)[j] != text@,
        decreases list@.len() - i,
    {
        if slice::same(list[i].as_str(), text) {
            return Some(i);
        }
        i = i + 1;
    }
    None
}

fn render(p: &Ping, sender: &str) -> (r: Option<String>)
    ensures
        slice::opt_text(r) == rendered(p@, sender@),
{
    let named = search::has(p.template.as_str(), "{sender}");
    let ghost keep = is_addressed(p@.template, sender@);
    let ghost all = slice::texts(p.members@);
    let ghost dress = |m: Seq<char>| "@"@ + m;
    let mut list: Vec<String> = Vec::new();
    let mut i: usize = 0;
    assert(slice::texts(list@) =~= all.take(0).filter(keep).map_values(dress)) by {
        reveal(Seq::filter);
    }
    while i < p.members.len()
        invariant
            i <= p.members@.len(),
            all == slice::texts(p.members@),
            named == search::contains(p@.template, "{sender}"@),
            keep == is_addressed(p@.template, sender@),
            dress == |m: Seq<char>| "@"@ + m,
            slice::texts(list@) == all.take(i as int).filter(keep).map_values(dress),
        decreases p.members@.len() - i,
    {
        let ghost after = all.take(i + 1);
        let ghost before = all.take(i as int).filter(keep);
        assert(after.drop_last() =~= all.take(i as int));
        assert(after.last() == p.members@[i as int]@);
        assert(after.filter(keep) == if keep(after.last()) {
            before.push(after.last())
        } else {
            before
        }) by {
            reveal(Seq::filter);
        }
        if !named || !slice::same(p.members[i].as_str(), sender) {
            let mut m = "@".to_owned();
            m.append(p.members[i].as_str());
            let ghost text = m@;
            let ghost was = slice::texts(list@);
            list.push(m);
            assert(slice::texts(list@) =~= was.push(text));
            assert(before.push(after.last()).map_values(dress) =~= before.map_values(dress).push(
                text,
            ));
        }
        i = i + 1;
    }
    assert(all.take(i as int) =~= all);
    assert(slice::texts(list@) == addressed(p@, sender@).map_values(dress));
    assert(slice::texts(list@).len() == list@.len());
    if list.len() == 0 {
        return None;
    }
    proof {
        reveal_strlit("{mentions}");
        reveal_strlit("{sender}");
    }
    let names = slice::join(&list, " ");
    let mut who = "@".to_owned();
    who.append(sender);
    let first = search::replace_all(p.template.as_str(), "{mentions}", names.as_str());
    Some(search::replace_all(first.as_str(), "{sender}", who.as_str()))
}

impl Ping {
    /// A copy of the ping.
    pub fn duplicate(&self) -> (r: Ping)
        ensures
            r@ == self@,
    {
        Ping {
            template: self.template.clone(),
            members: slice::clone_texts(&self.members),
            cooldown: self.cooldown,
            created_by: self.created_by.clone(),
            last_fired_at: self.last_fired_at,
            fire_count: self.fire_count,
        }
    }
}

impl NamedPing {
    /// A copy of the entry.
    pub fn duplicate(&self) -> (r: NamedPing)
        ensures
            r@ == self@,
    {
        NamedPing { name: self.name.clone(), ping: self.ping.duplicate() }
    }
}

/// A ping as it is shown.
#[derive(Debug)]
pub struct PingView {
    pub name: String,
    pub template: String,
    pub members: Vec<String>,
    pub cooldown: Option<u64>,
    pub created_by: String,
    pub last_fired_at: Option<Timestamp>,
    pub fire_count: u64,
}

impl View for PingView {
    type V = (Seq<char>, PingModel);

    open spec fn view(&self) -> (Seq<char>, PingModel) {
        (
            self.name@,
            PingModel {
                template: self.template@,
                members: slice::texts(self.members@),
                cooldown: self.cooldown,
                created_by: self.created_by@,
                last_fired_at: self.last_fired_at,
                fire_count: self.fire_count,
            },
        )
    }
}

pub open spec fn view_models(v: Seq<PingView>) -> Seq<(Seq<char>, PingModel)> {
    v.map_values(|p: PingView| p@)
}

impl PingView {
    /// The view of a ping under its name.
    pub fn from_name_ping(name: &str, p: &Ping) -> (r: PingView)
        ensures
            r@ == (name@, p@),
    {
        PingView {
            name: name.to_owned(),
            template: p.template.clone(),
            members: slice::clone_texts(&p.members),
            cooldown: p.cooldown,
            created_by: p.created_by.clone(),
            last_fired_at: p.last_fired_at,
            fire_count: p.fire_count,
        }
    }
}

impl PingManager {
    /// A manager without pings.
    pub fn empty() -> (r: PingManager)
        ensures
            r@ == (ManagerModel { pings: Seq::empty(), last_triggered: Seq::empty() }),
            r@.well_formed(),
    {
        let r = PingManager {
            store: PingStore { pings: Vec::new() },
            last_triggered: Vec::new(),
        };
        assert(r@ =~= (ManagerModel { pings: Seq::empty(), last_triggered: Seq::empty() }));
        r
    }

    /// A manager of stored pings. Those with a template that does not fit into
    /// one line are dropped.
    pub fn from_store(store: PingStore) -> (r: PingManager)
        requires
            names_distinct(ping_models(store.pings@)),
            forall|i: int|
                0 <= i < store.pings@.len() ==> (#[trigger] store.pings@[i])@.1.members.no_duplicates(),
        ensures
            r@.pings == ping_models(store.pings@).filter(fits_one_line()),
            r@.last_triggered.len() == 0,
            r@.well_formed(),
    {
        let ghost all = ping_models(store.pings@);
        let ghost keep = fits_one_line();
        let mut kept: Vec<NamedPing> = Vec::new();
        let mut i: usize = 0;
        assert(ping_models(kept@) =~= all.take(0).filter(keep)) by {
            reveal(Seq::filter);
        }
        while i < store.pings.len()
            invariant
                i <= store.pings@.len(),
                all == ping_models(store.pings@),
                keep == fits_one_line(),
                ping_models(kept@) == all.take(i as int).filter(keep),
                names_distinct(all),
                forall|j: int|
                    0 <= j < store.pings@.len() ==> (
                    #[trigger] store.pings@[j])@.1.members.no_duplicates(),
                forall|k: int|
                    0 <= k < kept@.len() ==> (#[trigger] ping_models(kept@)[k]).1.well_formed(),
                forall|k: int|
                    0 <= k < kept@.len() ==> exists|j: int|
                        0 <= j < i && #[trigger] all[j] == #[trigger] ping_models(kept@)[k],
                names_distinct(ping_models(kept@)),
            decreases store.pings@.len() - i,
        {
            let ghost after = all.take(i + 1);
            assert(after.drop_last() =~= all.take(i as int));
            assert(after.last() == store.pings@[i as int]@);
            assert(after.filter(keep) == if keep(after.last()) {
                all.take(i as int).filter(keep).push(after.last())
            } else {
                all.take(i as int).filter(keep)
            }) by {
                reveal(Seq::filter);
            }
            let fits = match validate_template(store.pings[i].ping.template.as_str()) {
                Ok(_) => true,
                Err(_) => false,
            };
            if fits {
                let ghost was = ping_models(kept@);
                kept.push(store.pings[i].duplicate());
                let ghost now = ping_models(kept@);
                assert(now =~= was.push(after.last()));
                assert(all[i as int] == after.last());
                assert forall|k: int| 0 <= k < kept@.len() implies exists|j: int|
                    0 <= j < i + 1 && #[trigger] all[j] == #[trigger] now[k] by {
                    if k < was.len() {
                        assert(now[k] == was[k]);
                        let j = choose|j: int| 0 <= j < i && #[trigger] all[j] == was[k];
                        assert(all[j] == now[k]);
                    } else {
                        assert(all[i as int] == now[k]);
                    }
                }
                assert forall|a: int, b: int| 0 <= a < b < now.len() implies (#[trigger] now[a]).0
                    != (#[trigger] now[b]).0 by {
                    assert(now[a] == was[a]);
                    if b < was.len() {
                        assert(now[b] == was[b]);
                    } else {
                        let j = choose|j: int| 0 <= j < i && #[trigger] all[j] == was[a];
                        assert(all[j].0 != all[i as int].0);
                    }
                }
            }
            i = i + 1;
        }
        assert(all.take(i as int) =~= all);
        let r = PingManager { store: PingStore { pings: kept }, last_triggered: Vec::new() };
        assert(r@.pings == ping_models(kept@));
        r
    }

    /// The place of the ping with the name.
    fn find(&self, name: &str) -> (r: Option<usize>)
        ensures
            match r {
                Some(i) => place_of(self@.pings, name@) == Some(i as int) && i
                    < self.store.pings@.len() && self@.pings[i as int].0 == name@,
                None => place_of(self@.pings, name@) is None,
            },
    {
        let ghost p = named(name@);
        let mut i: usize = 0;
        while i < self.store.pings.len()
            invariant
                i <= self.store.pings@.len(),
                p == named(name@),
                forall|j: int| 0 <= j < i ==> !p(#[trigger] self@.pings[j]),
            decreases self.store.pings@.len() - i,
        {
            assert(self@.pings[i as int] == self.store.pings@[i as int]@);
            if slice::same(self.store.pings[i].name.as_str(), name) {
                proof {
                    assert(p(self@.pings[i as int]));
                    lists::lemma_first_at(self@.pings, p, i as int);
                }
                return Some(i);
            }
            i = i + 1;
        }
        proof {
            lists::lemma_first_none(self@.pings, p);
        }
        None
    }

    /// The place of the last firing under the name.
    fn find_trigger(&self, name: &str) -> (r: Option<usize>)
        ensures
            match r {
                Some(i) => trigger_place(self@.last_triggered, name@) == Some(i as int) && i
                    < self.last_triggered@.len(),
                None => trigger_place(self@.last_triggered, name@) is None,
            },
    {
        let ghost p = fired_as(name@);
        let mut i: usize = 0;
        while i < self.last_triggered.len()
            invariant
                i <= self.last_triggered@.len(),
                p == fired_as(name@),
                forall|j: int| 0 <= j < i ==> !p(#[trigger] self@.last_triggered[j]),
            decreases self.last_triggered@.len() - i,
        {
            assert(self@.last_triggered[i as int] == (
                self.last_triggered@[i as int].0@,
                self.last_triggered@[i as int].1,
            ));
            if slice::same(self.last_triggered[i].0.as_str(), name) {
                proof {
                    assert(p(self@.last_triggered[i as int]));
                    lists::lemma_first_at(self@.last_triggered, p, i as int);
                }
                return Some(i);
            }
            i = i + 1;
        }
        proof {
            lists::lemma_first_none(self@.last_triggered, p);
        }
        None
    }

    /// Creates a ping without members. Its name is taken in lower case.
    pub fn create_ping(
        &mut self,
        name: &str,
        template: String,
        created_by: String,
        cooldown: Option<u64>,
    ) -> (r: Result<(), PingError>)
        ensures
            (final(self)@, result_model(r)) == old(self)@.create(
                name@,
                template@,
                created_by@,
                cooldown,
            ),
    {
        let name = slice::to_ascii_lower(name);
        if name.as_str().is_empty() {
            return Err(PingError::EmptyName);
        }
        if !is_good_name(name.as_str()) {
            return Err(PingError::BadName);
        }
        if let Err(e) = validate_template(template.as_str()) {
            return Err(e);
        }
        if self.find(name.as_str()).is_some() {
            return Err(PingError::Exists { name });
        }
        let members: Vec<String> = Vec::new();
        assert(slice::texts(members@) =~= Seq::<Seq<char>>::empty());
        let view = NamedPing {
            name,
            ping: Ping {
                template,
                members,
                cooldown,
                created_by,
                last_fired_at: None,
                fire_count: 0,
            },
        };
        let ghost m = view@;
        self.store.pings.push(view);
        assert(self@.pings =~= old(self)@.pings.push(m));
        Ok(())
    }

    /// Deletes a ping.
    pub fn delete_ping(&mut self, name: &str) -> (r: Result<(), PingError>)
        ensures
            (final(self)@, result_model(r)) == old(self)@.delete(name@),
    {
        let i: usize = match self.find(name) {
            Some(i) => i,
            None => return Err(PingError::Missing { name: name.to_owned() }),
        };
        self.store.pings.remove(i);
        assert(self@.pings =~= old(self)@.pings.remove(i as int));
        if let Some(k) = self.find_trigger(name) {
            self.last_triggered.remove(k);
            assert(self@.last_triggered =~= old(self)@.last_triggered.remove(k as int));
        }
        Ok(())
    }

    /// Gives a ping another template.
    pub fn edit_template(&mut self, name: &str, template: String) -> (r: Result<(), PingError>)
        ensures
            (final(self)@, result_model(r)) == old(self)@.edit(name@, template@),
    {
        if let Err(e) = validate_template(template.as_str()) {
            return Err(e);
        }
        let i: usize = match self.find(name) {
            Some(i) => i,
            None => return Err(PingError::Missing { name: name.to_owned() }),
        };
        let ghost m = PingModel { template: template@, ..self@.pings[i as int].1 };
        assert(self@.pings[i as int] == self.store.pings@[i as int]@);
        self.store.pings[i].ping.template = template;
        assert(self.store.pings@[i as int]@ == (old(self)@.pings[i as int].0, m));
        assert(self@.pings =~= old(self)@.with_ping(i as int, m).pings);
        Ok(())
    }

    /// Adds a user to a ping. The login is taken in lower case.
    pub fn add_member(&mut self, ping_name: &str, username: &str) -> (r: Result<(), PingError>)
        ensures
            (final(self)@, result_model(r)) == old(self)@.join(ping_name@, username@),
    {
        let i: usize = match self.find(ping_name) {
            Some(i) => i,
            None => return Err(PingError::Missing { name: ping_name.to_owned() }),
        };
        assert(self@.pings[i as int] == self.store.pings@[i as int]@);
        let user = slice::to_lower(username);
        if position(&self.store.pings[i].ping.members, user.as_str()).is_some() {
            return Err(
                PingError::AlreadyMember {
                    user: username.to_owned(),
                    name: ping_name.to_owned(),
                },
            );
        }
        let ghost u = user@;
        let ghost p = self@.pings[i as int].1;
        let ghost m = PingModel { members: p.members.push(u), ..p };
        self.store.pings[i].ping.members.push(user);
        assert(self.store.pings@[i as int]@.1.members =~= p.members.push(u));
        assert(self.store.pings@[i as int]@ == (old(self)@.pings[i as int].0, m));
        assert(self@.pings =~= old(self)@.with_ping(i as int, m).pings);
        Ok(())
    }

    /// Removes a user from a ping. The login is taken in lower case.
    pub fn remove_member(&mut self, ping_name: &str, username: &str) -> (r: Result<(), PingError>)
        requires
            old(self)@.well_formed(),
        ensures
            (final(self)@, result_model(r)) == old(self)@.leave(ping_name@, username@),
    {
        let i: usize = match self.find(ping_name) {
            Some(i) => i,
            None => return Err(PingError::Missing { name: ping_name.to_owned() }),
        };
        assert(self@.pings[i as int] == self.store.pings@[i as int]@);
        let user = slice::to_lower(username);
        match position(&self.store.pings[i].ping.members, user.as_str()) {
            None => Err(
                PingError::NotMember { user: username.to_owned(), name: ping_name.to_owned() },
            ),
            Some(k) => {
                let ghost p = self@.pings[i as int].1;
                let ghost m = PingModel { members: p.members.remove(k as int), ..p };
                assert(p.members.contains(user@)) by {
                    assert(p.members[k as int] == user@);
                }
                assert(p.members.index_of(user@) == k) by {
                    assert(p.members.no_duplicates());
                }
                self.store.pings[i].ping.members.remove(k);
                assert(self.store.pings@[i as int]@.1.members =~= p.members.remove(k as int));
                assert(self.store.pings@[i as int]@ == (old(self)@.pings[i as int].0, m));
                assert(self@.pings =~= old(self)@.with_ping(i as int, m).pings);
                Ok(())
            },
        }
    }

    /// The ping with the name.
    pub fn get(&self, name: &str) -> (r: Option<&Ping>)
        ensures
            match r {
                Some(p) => ping_of(self@.pings, name@) == Some(p@),
                None => ping_of(self@.pings, name@) is None,
            },
    {
        match self.find(name) {
            Some(i) => {
                assert(self@.pings[i as int] == self.store.pings@[i as int]@);
                Some(&self.store.pings[i].ping)
            },
            None => None,
        }
    }

    /// Whether the user is a member of the ping.
    pub fn is_member(&self, ping_name: &str, username: &str) -> (b: bool)
        ensures
            b == self@.has_member(ping_name@, username@),
    {
        match self.get(ping_name) {
            Some(p) => {
                let at = position(&p.members, username);
                proof {
                    if at is Some {
                        assert(p@.members[at->0 as int] == username@);
                    }
                }
                at.is_some()
            },
            None => false,
        }
    }

    /// The names of the pings of which the user is a member.
    pub fn list_pings_for_user_owned(&self, username: &str) -> (r: Vec<String>)
        ensures
            slice::texts(r@) == self@.pings_of(username@),
    {
        let ghost all = self@.pings;
        let ghost keep = has_user(username@);
        let ghost first = |p: (Seq<char>, PingModel)| p.0;
        let mut names: Vec<String> = Vec::new();
        let mut i: usize = 0;
        assert(slice::texts(names@) =~= all.take(0).filter(keep).map_values(first)) by {
            reveal(Seq::filter);
        }
        while i < self.store.pings.len()
            invariant
                i <= self.store.pings@.len(),
                all == self@.pings,
                keep == has_user(username@),
                first == |p: (Seq<char>, PingModel)| p.0,
                slice::texts(names@) == all.take(i as int).filter(keep).map_values(first),
            decreases self.store.pings@.len() - i,
        {
            let ghost after = all.take(i + 1);
            let ghost before = all.take(i as int).filter(keep);
            assert(after.drop_last() =~= all.take(i as int));
            assert(after.last() == self.store.pings@[i as int]@);
            assert(after.filter(keep) == if keep(after.last()) {
                before.push(after.last())
            } else {
                before
            }) by {
                reveal(Seq::filter);
            }
            let at = position(&self.store.pings[i].ping.members, username);
            proof {
                if at is Some {
                    assert(after.last().1.members[at->0 as int] == username@);
                }
            }
            if at.is_some() {
                let ghost was = slice::texts(names@);
                names.push(self.store.pings[i].name.clone());
                assert(slice::texts(names@) =~= was.push(after.last().0));
                assert(before.push(after.last()).map_values(first) =~= before.map_values(
                    first,
                ).push(after.last().0));
            }
            i = i + 1;
        }
        assert(all.take(i as int) =~= all);
        names
    }

    /// The nanoseconds that are left until the ping can be fired again.
    pub fn remaining_cooldown(&self, ping_name: &str, default_cooldown: u128, now: Moment) -> (r:
        Option<u128>)
        ensures
            r == self@.remaining(ping_name@, default_cooldown, now),
    {
        let p = match self.get(ping_name) {
            Some(p) => p,
            None => return None,
        };
        let cooldown: u128 = match p.cooldown {
            Some(secs) => secs as u128 * 1_000_000_000,
            None => default_cooldown,
        };
        match self.find_trigger(ping_name) {
            Some(k) => {
                assert(self@.last_triggered[k as int].1 == self.last_triggered@[k as int].1);
                let last = self.last_triggered[k].1;
                let passed: u128 = if now.nanos >= last.nanos {
                    (now.nanos - last.nanos) as u128
                } else {
                    0
                };
                if passed < cooldown {
                    Some(cooldown - passed)
                } else {
                    None
                }
            },
            None => None,
        }
    }

    /// Records that the ping has been fired.
    pub fn record_trigger(&mut self, ping_name: &str, now: Moment, at: Timestamp)
        ensures
            final(self)@ == old(self)@.triggered(ping_name@, now, at),
    {
        let i: usize = match self.find(ping_name) {
            Some(i) => i,
            None => return ,
        };
        assert(self@.pings[i as int] == self.store.pings@[i as int]@);
        match self.find_trigger(ping_name) {
            Some(k) => {
                self.last_triggered.set(k, (ping_name.to_owned(), now));
                assert(self@.last_triggered =~= old(self)@.last_triggered.update(
                    k as int,
                    (ping_name@, now),
                ));
            },
            None => {
                self.last_triggered.push((ping_name.to_owned(), now));
                assert(self@.last_triggered =~= old(self)@.last_triggered.push((ping_name@, now)));
            },
        }
        let ghost m = self@.pings[i as int].1.fired(at);
        self.store.pings[i].ping.last_fired_at = Some(at);
        if self.store.pings[i].ping.fire_count < u64::MAX {
            self.store.pings[i].ping.fire_count = self.store.pings[i].ping.fire_count + 1;
        }
        assert(self.store.pings@[i as int]@ == (old(self)@.pings[i as int].0, m));
        assert(self@.pings =~= old(self)@.with_ping(i as int, m).pings);
    }

    /// Fires the ping, if the sender may and it is not too soon.
    pub fn try_record_trigger(
        &mut self,
        ping_name: &str,
        sender: &str,
        default_cooldown: u128,
        public: bool,
        now: Moment,
        at: Timestamp,
    ) -> (r: TriggerDecision)
        ensures
            r@ == old(self)@.decision(ping_name@, sender@, default_cooldown, public, now),
            final(self)@ == if r@ is Fire {
                old(self)@.triggered(ping_name@, now, at)
            } else {
                old(self)@
            },
    {
        if !public && !self.is_member(ping_name, sender) {
            return TriggerDecision::Skip;
        }
        if let Some(left) = self.remaining_cooldown(ping_name, default_cooldown, now) {
            return TriggerDecision::OnCooldown(left);
        }
        match self.render_template(ping_name, sender) {
            Some(text) => {
                self.record_trigger(ping_name, now, at);
                TriggerDecision::Fire(text)
            },
            None => TriggerDecision::Skip,
        }
    }

    /// The message of a ping, unless it would address nobody.
    pub fn render_template(&self, ping_name: &str, sender: &str) -> (r: Option<String>)
        ensures
            slice::opt_text(r) == match ping_of(self@.pings, ping_name@) {
                Some(p) => rendered(p, sender@),
                None => None,
            },
    {
        match self.get(ping_name) {
            Some(p) => render(p, sender),
            None => None,
        }
    }

    /// All pings.
    pub fn snapshot(&self) -> (r: Vec<PingView>)
        ensures
            view_models(r@) == self@.pings,
    {
        let mut r: Vec<PingView> = Vec::new();
        let mut i: usize = 0;
        while i < self.store.pings.len()
            invariant
                i <= self.store.pings@.len(),
                r@.len() == i,
                forall|j: int| 0 <= j < i ==> (#[trigger] r@[j])@ == self.store.pings@[j]@,
            decreases self.store.pings@.len() - i,
        {
            let p = &self.store.pings[i];
            r.push(PingView::from_name_ping(p.name.as_str(), &p.ping));
            i = i + 1;
        }
        assert(view_models(r@) =~= self@.pings);
        r
    }

    /// One ping under its name.
    pub fn get_one(&self, name: &str) -> (r: Option<PingView>)
        ensures
            match r {
                Some(v) => ping_of(self@.pings, name@) is Some && v@ == (
                    name@,
                    ping_of(self@.pings, name@)->0,
                ),
                None => ping_of(self@.pings, name@) is None,
            },
    {
        match self.get(name) {
            Some(p) => Some(PingView::from_name_ping(name, p)),
            None => None,
        }
    }

    /// The names of all pings.
    pub fn names(&self) -> (r: Vec<String>)
        ensures
            slice::texts(r@) == self@.pings.map_values(|p: (Seq<char>, PingModel)| p.0),
    {
        let mut r: Vec<String> = Vec::new();
        let mut i: usize = 0;
        while i < self.store.pings.len()
            invariant
                i <= self.store.pings@.len(),
                r@.len() == i,
                forall|j: int| 0 <= j < i ==> (#[trigger] r@[j])@ == self.store.pings@[j].name@,
            decreases self.store.pings@.len() - i,
        {
            r.push(self.store.pings[i].name.clone());
            i = i + 1;
        }
        assert(slice::texts(r@) =~= self@.pings.map_values(|p: (Seq<char>, PingModel)| p.0));
        r
    }
}

} // verus!
