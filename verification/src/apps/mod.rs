//! One-shot compute jobs.

pub mod img;
pub mod sqr;
