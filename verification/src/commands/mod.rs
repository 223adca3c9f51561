//! The chat commands.

use vstd::prelude::*;
use vstd::string::StringExecFns;

use crate::text::{chars, slice};

pub mod feedback;
pub mod haiku;
pub mod laws;
pub mod ping_admin;
pub mod ping_trigger;
pub mod suspend;

verus! {

/// Whether a user may administer the bot: as broadcaster, as moderator, or by
/// being on the list.
pub open spec fn administers(
    badges: Seq<Seq<char>>,
    user_id: Seq<char>,
    hidden_admins: Seq<Seq<char>>,
) -> bool {
    badges.contains("broadcaster"@) || badges.contains("moderator"@) || hidden_admins.contains(
        user_id,
    )
}

/// Whether a user may administer the bot.
pub fn is_admin(badges: &Vec<String>, user_id: &str, hidden_admin_ids: &Vec<String>) -> (b: bool)
    ensures
        b == administers(slice::texts(badges@), user_id@, slice::texts(hidden_admin_ids@)),
{
    slice::listed(badges, "broadcaster") || slice::listed(badges, "moderator") || slice::listed(hidden_admin_ids, user_id)
}

/// A text without its leading exclamation marks.
pub open spec fn without_marks(s: Seq<char>) -> Seq<char>
    decreases s.len(),
{
    if s.len() > 0 && s[0] == '!' {
        without_marks(s.drop_first())
    } else {
        s
    }
}

/// The name of a command: without leading exclamation marks and in lower case.
pub open spec fn command_name(s: Seq<char>) -> Seq<char> {
    chars::ascii_lowered(without_marks(s))
}

/// The name of a command.
pub fn normalize_command_name(raw: &str) -> (r: String)
    ensures
        r@ == command_name(raw@),
{
    let v = slice::chars_of(raw);
    let mut n: usize = 0;
    assert(v@.skip(0) =~= v@);
    while n < v.len() && v[n] == '!'
        invariant
            n <= v@.len(),
            without_marks(v@.skip(n as int)) == without_marks(v@),
        decreases v@.len() - n,
    {
        assert(v@.skip(n as int).drop_first() =~= v@.skip(n + 1));
        n = n + 1;
    }
    let bare = slice::text_between(&v, n, v.len());
    assert(bare@ =~= v@.skip(n as int));
    slice::to_ascii_lower(bare.as_str())
}

/// What a user who has to wait is told.
pub open spec fn wait_text(remaining: Seq<char>) -> Seq<char> {
    "Bitte warte noch "@ + remaining + " Waiting"@
}

/// What a user who has to wait is told.
pub fn wait_reply(remaining: &str) -> (r: String)
    ensures
        r@ == wait_text(remaining@),
{
    let mut r = "Bitte warte noch ".to_owned();
    r.append(remaining);
    r.append(" Waiting");
    r
}

/// The name of a command is its own name, however often it is worked out.
pub proof fn law_names_are_stable(s: Seq<char>)
    ensures
        command_name(command_name(s)) == command_name(s),
{
    let bare = without_marks(s);
    lemma_without_marks(s);
    let name = chars::ascii_lowered(bare);
    if bare.len() > 0 {
        assert(name[0] == chars::lower_char(bare[0]));
    }
    assert(without_marks(name) == name);
    assert(chars::ascii_lowered(name) =~= name);
}

/// Without its leading marks a text does not begin with one.
proof fn lemma_without_marks(s: Seq<char>)
    ensures
        without_marks(s).len() > 0 ==> without_marks(s)[0] != '!',
    decreases s.len(),
{
    if s.len() > 0 && s[0] == '!' {
        lemma_without_marks(s.drop_first());
    }
}

} // verus!
