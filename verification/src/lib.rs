//! Countdown timer core: time-expression parsing, duration formatting and the
//! countdown schedule as an explicit state machine, free of I/O.

pub mod cli;
pub mod clock;
pub mod color;
pub mod config;
pub mod digits;
pub mod error;
pub mod fields;
pub mod format;
pub mod input;
pub mod plan;
pub mod relative;
pub mod roundtrip;
pub mod scheduler;
pub mod timer;
pub mod trace;
