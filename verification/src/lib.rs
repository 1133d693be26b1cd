//! Core of a terminal timer that tracks a sequence of timed attempts
//! ("solves") toward a configurable target count.
//!
//! All durations and timestamps are integer milliseconds from a monotonic
//! clock supplied by the caller; the session state machine, the statistics,
//! and the textual display model are pure functions over them.

pub mod display;
pub mod numfmt;
pub mod session;
pub mod stats;
