//! A plain logger: four severities, and every message of an enabled logger
//! is written.

pub mod level;
pub mod logger;

pub use level::LogLevel;
pub use logger::Logger;
