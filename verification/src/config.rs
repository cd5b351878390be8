//! Per-job configuration: where to read contacts, where to write calendars,
//! and whether stale outputs are purged first.  Loading a configuration file
//! is the surrounding application's concern.

use vstd::prelude::*;

verus! {

/// A whole configuration: one entry per job.
#[derive(Debug, Clone, PartialEq)]
pub struct Config {
    pub entries: Vec<Entry>,
}

/// One job: an input directory, an output directory, and whether pre-existing
/// calendar outputs are removed before regeneration.
#[derive(Debug, Clone, PartialEq)]
pub struct Entry {
    pub input: String,
    pub output: String,
    pub remove_files: bool,
}

} // verus!
