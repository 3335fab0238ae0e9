//! The parts of an event that a log line shows.

use vstd::prelude::*;

verus! {

/// Which parts of an event a log line shows.
#[derive(Debug, Clone, Copy, PartialEq, Eq, Structural)]
pub struct LogDisplayOptions {
    pub level: bool,
    pub target: bool,
    pub thread_ids: bool,
    pub thread_names: bool,
    pub source_location: bool,
}

impl LogDisplayOptions {
    /// The options a logger starts with: level and target shown, the rest hidden.
    pub open spec fn standard() -> LogDisplayOptions {
        LogDisplayOptions {
            level: true,
            target: true,
            thread_ids: false,
            thread_names: false,
            source_location: false,
        }
    }
}

impl Default for LogDisplayOptions {
    fn default() -> (options: Self)
        ensures
            options == LogDisplayOptions::standard(),
    {
        Self {
            level: true,
            target: true,
            thread_ids: false,
            thread_names: false,
            source_location: false,
        }
    }
}

} // verus!
