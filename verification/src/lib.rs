//! Bookkeeping for a long-running compute client: cumulative work counters
//! that survive restarts, and a smoothed estimate of per-core throughput.
//!
//! The crate holds the rules and leaves the operating system to its caller.
//! Whoever embeds it opens the files, reads the clock and writes what the
//! recorder says is to be written; every decision in between is made here.

pub mod counters;
pub mod decimal;
pub mod estimator;
pub mod event_log;
pub mod laws;
pub mod paths;
pub mod recorder;

pub use counters::{LoadError, Stats};
pub use estimator::NpsRecorder;
pub use event_log::LogRow;
pub use recorder::{Notice, Plan, StatsOpt, StatsRecorder, StoreOutcome, Writes};
