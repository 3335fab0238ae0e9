//! Log destinations.

use vstd::prelude::*;

verus! {

/// Where log lines go.
#[derive(Debug, Clone, Copy, PartialEq, Eq, Structural)]
pub enum LogWriter {
    File,
    Console,
}

} // verus!
