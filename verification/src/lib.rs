//! Prayer-timeline library: a day's schedule of adhan and iqama instants,
//! pure time-state queries over it (next prayer, rakah estimate, countdowns,
//! travel prediction), and the decision logic of a multi-source schedule
//! resolver with ordered fallback and caching.
//!
//! All instants are seconds since the Unix epoch; all durations are seconds
//! unless a field name says minutes.

pub mod cache;
pub mod engine;
pub mod mosque;
pub mod notify;
pub mod prayer;
pub mod provider;
pub mod resolver;
pub mod search;
pub mod text;
pub mod timeparse;
pub mod timetable;
