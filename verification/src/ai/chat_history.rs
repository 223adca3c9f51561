//! Lines of chat as the bot remembers them.

use vstd::prelude::*;

use crate::text::slice;
use crate::time::Timestamp;

verus! {

/// Who wrote a line.
#[derive(Clone, Copy, Debug, PartialEq, Eq, Structural)]
pub enum ChatHistorySource {
    User,
    Bot,
}

/// One line of chat.
#[derive(Debug)]
pub struct ChatHistoryEntry {
    pub seq: u64,
    pub username: String,
    pub display_name: Option<String>,
    pub user_id: Option<String>,
    pub text: String,
    pub source: ChatHistorySource,
    pub timestamp: Timestamp,
}

/// What a line holds.
#[verifier::ext_equal]
pub struct EntryModel {
    pub seq: u64,
    pub username: Seq<char>,
    pub display_name: Option<Seq<char>>,
    pub user_id: Option<Seq<char>>,
    pub text: Seq<char>,
    pub source: ChatHistorySource,
    pub timestamp: Timestamp,
}

impl View for ChatHistoryEntry {
    type V = EntryModel;

    open spec fn view(&self) -> EntryModel {
        EntryModel {
            seq: self.seq,
            username: self.username@,
            display_name: slice::opt_text(self.display_name),
            user_id: slice::opt_text(self.user_id),
            text: self.text@,
            source: self.source,
            timestamp: self.timestamp,
        }
    }
}

/// What a list of lines holds.
pub open spec fn entries(v: Seq<ChatHistoryEntry>) -> Seq<EntryModel> {
    v.map_values(|e: ChatHistoryEntry| e@)
}

/// Whether every line was written inside the calendar.
pub open spec fn dated(v: Seq<EntryModel>) -> bool {
    forall|i: int| 0 <= i < v.len() ==> (#[trigger] v[i]).timestamp.valid()
}

} // verus!
