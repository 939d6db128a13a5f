//! Decision logic and text formats of a row-count monitor.
//!
//! The monitor polls one table of a database for its row count and reports
//! every outcome as a timestamped line. This crate holds everything the
//! monitor decides or computes: how the command line is read, how lines and
//! the log file's name are written, how a count is taken out of a query
//! result, and which step follows which. Talking to the database, the file
//! system and the timer is left to the caller, who performs the actions that
//! the [`monitor::Monitor`] hands out and reports back what happened.

pub mod args;
pub mod clock;
pub mod decimal;
pub mod logline;
pub mod monitor;
pub mod query;
pub mod report;
pub mod trace;
