//! Infrastructure building blocks of the bot: a generic data-access layer
//! (typed values, statement construction, row decoding, migrations), plus the
//! configuration, logging and network request models that surround it.
//!
//! Everything here is pure: functions take plain values and return plain
//! values. Talking to a database, the file system or the network is left to
//! the caller, who executes the statements and plans this crate produces.

pub mod infrastructure;
pub mod logger;
