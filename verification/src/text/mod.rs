//! Text handling: character classes, searching, replacing, joining and
//! rendering of numbers.
//!
//! The view of a `String` or `str` is its sequence of characters. Everything
//! here is stated over those sequences.

pub mod chars;
pub mod number;
pub mod order;
pub mod search;
pub mod slice;
pub mod table;
