//! The providers of flight data: which requests are made, and what their
//! answers mean.

pub mod adsb;
pub mod adsbdb;
pub mod aviationstack;
pub mod health;
pub mod merge;
pub mod nominatim;
