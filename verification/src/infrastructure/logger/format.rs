//! Log line layouts.

use vstd::prelude::*;

verus! {

/// The layout of a log line.
#[derive(Debug, Clone, Copy, PartialEq, Eq, Structural)]
pub enum LogFormat {
    Pretty,
    Compact,
    Json,
    Full,
}

} // verus!
