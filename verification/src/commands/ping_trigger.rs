//! Firing pings by their names.

use vstd::prelude::*;

use super::wait_reply;
use crate::commands;
use crate::ping::{DecisionModel, TriggerDecision};
use crate::text::{chars, search, slice};

verus! {

/// What follows the exclamation mark of a word, where something does.
pub open spec fn called(word: Seq<char>) -> Option<Seq<char>> {
    if search::begins_with(word, "!"@) && word.len() > 1 {
        Some(word.skip(1))
    } else {
        None
    }
}

/// What follows the exclamation mark of a word, where something does.
fn name_in(word: &str) -> (r: Option<String>)
    ensures
        slice::opt_text(r) == called(word@),
{
    proof {
        reveal_strlit("!");
    }
    match search::after_prefix(word, "!") {
        Some(name) => if name.as_str().is_empty() {
            None
        } else {
            Some(name)
        },
        None => None,
    }
}

/// The ping that a word calls, where it calls one.
pub fn parse_ping_trigger(word: &str) -> (r: Option<String>)
    ensures
        slice::opt_text(r) == match called(word@) {
            Some(name) => Some(slice::lowercased(name)),
            None => None,
        },
{
    match name_in(word) {
        Some(name) => Some(slice::to_lower(name.as_str())),
        None => None,
    }
}

/// Whether a name is one of the pings' names, in whatever case.
pub open spec fn known(names: Seq<Seq<char>>, name: Seq<char>) -> bool {
    exists|i: int| 0 <= i < names.len() && chars::same_ignoring_case(#[trigger] names[i], name)
}

/// Whether a word calls one of the pings.
pub fn matches_ping(word: &str, names: &Vec<String>) -> (b: bool)
    ensures
        b == match called(word@) {
            Some(name) => known(slice::texts(names@), name),
            None => false,
        },
{
    let name = match name_in(word) {
        Some(name) => name,
        None => {
            return false;
        },
    };
    let ghost all = slice::texts(names@);
    let mut i: usize = 0;
    while i < names.len()
        invariant
            i <= names@.len(),
            all == slice::texts(names@),
            called(word@) == Some(name@),
            forall|j: int| 0 <= j < i ==> !chars::same_ignoring_case(#[trigger] all[j], name@),
        decreases names@.len() - i,
    {
        assert(all[i as int] == names@[i as int]@);
        if slice::eq_ignoring_case(names[i].as_str(), name.as_str()) {
            return true;
        }
        i = i + 1;
    }
    false
}

/// What comes of the wish to fire a ping.
#[derive(Debug)]
pub enum Reaction {
    Nothing,
    /// An answer to the user.
    Reply(String),
    /// A message to the channel.
    Say(String),
}

/// What a reaction holds.
pub enum ReactionModel {
    Nothing,
    Reply(Seq<char>),
    Say(Seq<char>),
}

impl View for Reaction {
    type V = ReactionModel;

    open spec fn view(&self) -> ReactionModel {
        match *self {
            Reaction::Nothing => ReactionModel::Nothing,
            Reaction::Reply(s) => ReactionModel::Reply(s@),
            Reaction::Say(s) => ReactionModel::Say(s@),
        }
    }
}

/// What comes of the wish to fire a ping, where `remaining` says how long its
/// cooldown lasts.
pub open spec fn reaction(decision: DecisionModel, remaining: Seq<char>) -> ReactionModel {
    match decision {
        DecisionModel::Skip => ReactionModel::Nothing,
        DecisionModel::OnCooldown(_) => ReactionModel::Reply(commands::wait_text(remaining)),
        DecisionModel::Fire(text) => ReactionModel::Say(text),
    }
}

/// What comes of the wish to fire a ping.
pub fn react(decision: &TriggerDecision, remaining: &str) -> (r: Reaction)
    ensures
        r@ == reaction(decision@, remaining@),
{
    match decision {
        TriggerDecision::Skip => Reaction::Nothing,
        TriggerDecision::OnCooldown(_) => Reaction::Reply(wait_reply(remaining)),
        TriggerDecision::Fire(text) => Reaction::Say(text.clone()),
    }
}

} // verus!
