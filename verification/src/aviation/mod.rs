//! Flights: observation of aircraft, flight metadata and the flight tracker.

pub mod airports;
pub mod client;
pub mod codes;
pub mod commands;
pub mod source_laws;
pub mod tracker;
pub mod types;
