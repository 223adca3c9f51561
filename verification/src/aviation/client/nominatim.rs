//! The short name of a place that was geocoded.

use vstd::prelude::*;

use crate::text::{search, slice};

verus! {

/// The first part of a comma-separated name, without padding.
pub open spec fn short_name(display_name: Seq<char>) -> Seq<char> {
    slice::trimmed(search::pieces(display_name, ","@)[0])
}

/// The first part of a comma-separated name, without padding.
pub fn short_display_name(display_name: &str) -> (r: String)
    ensures
        r@ == short_name(display_name@),
{
    proof {
        reveal_strlit(",");
        search::lemma_pieces_nonempty(display_name@, ","@);
    }
    let parts = search::split(display_name, ",");
    assert(slice::texts(parts@).len() == parts@.len());
    assert(slice::texts(parts@)[0] == parts@[0]@);
    slice::trim(parts[0].as_str())
}

} // verus!
