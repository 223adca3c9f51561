//! Recurring messages: what they say, when they are due and when they were
//! last sent.

pub mod message_laws;
pub mod schedule;
pub mod telemetry;
pub mod trigger;
pub mod trigger_laws;
pub mod weekday;
