//! A personal backup library: text snapshots ("archives") are produced by
//! running configured shell commands, and recently changed archive files are
//! delivered to configured destinations (a GitHub gist or a shell pipe).
//!
//! The verified core is the bounded-concurrency task orchestrator with
//! partial-failure aggregation, the change detector that decides which files
//! to rewrite or upload, and the destination dispatcher that validates a
//! backup specification and plans the delivery. All subprocess, filesystem
//! and network work is carried out by the surrounding application, which
//! feeds plain values into these verified decision functions.

pub mod appconfig;
pub mod archive_generator;
pub mod backup_performer;
pub mod orchestrator;
pub mod paths;
pub mod uploaders;

use vstd::prelude::*;

verus! {

/// Threshold under which a file counts as recently modified: one day.
pub const ONE_DAY_SECS: u64 = 86400;

} // verus!
