//! A time of day with nanosecond precision and positive leap seconds, with
//! arithmetic against signed durations and a canonical text form.

pub mod duration;
pub mod time;
pub mod render;
pub mod laws;
