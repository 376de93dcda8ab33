//! Change detection for a repository's star and fork counters.
//!
//! A [`StarsForks`](accumulator::StarsForks) accumulator stores the last
//! observed snapshot of the two counters and, on each new snapshot, reports
//! what changed as a short display string, staying silent when nothing did.

pub mod accumulator;
pub mod decimal;
