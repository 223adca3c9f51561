//! Core of a Twitch chat bot: flight tracking, pings, recurring messages,
//! prompt assembly and the small chat commands.

pub mod ai;
pub mod aviation;
pub mod berlin;
pub mod commands;
pub mod config;
pub mod decimal;
pub mod json;
pub mod lists;
pub mod ping;
pub mod ping_actor;
pub mod ping_laws;
pub mod ping_results;
pub mod schedule;
pub mod settings;
pub mod startup;
pub mod text;
pub mod time;
