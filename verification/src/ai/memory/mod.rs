//! What the bot remembers, and how it goes into prompts.

pub mod context_laws;
pub mod inject;
pub mod inject_laws;
pub mod ritual;
pub mod template_laws;
