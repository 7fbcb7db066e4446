//! Temporal aggregation and scheduled-reporting core for backup-job
//! telemetry: comparable time windows, event aggregation over a window,
//! "as-of" storage-snapshot lookups, scheduler decisions, and retention
//! pruning, all with machine-checked contracts.

pub mod event;
pub mod fmt;
pub mod prune;
pub mod report;
pub mod schedule;
pub mod storage;
pub mod text;
pub mod util;
pub mod window;
