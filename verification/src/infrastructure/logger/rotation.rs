//! Log file rotation periods.

use vstd::prelude::*;

verus! {

/// How often the log file is replaced by a fresh one.
#[derive(Debug, Clone, Copy, PartialEq, Eq, Structural)]
pub enum LogRotation {
    Minutely,
    Hourly,
    Daily,
    Never,
}

} // verus!
