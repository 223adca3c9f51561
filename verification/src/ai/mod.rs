//! Chatting with a language model: prompts, triggers, tools and models.

pub mod answer_laws;
pub mod chat_history;
pub mod command;
pub mod emote_tool;
pub mod memory;
pub mod model_catalog;
pub mod turn_laws;
