//! Logging: severity levels, the options of the process-wide subscriber, and
//! the rules by which a logger decides what to write and when to rotate.

pub mod builder;
pub mod display_options;
pub mod format;
pub mod internal_logger;
pub mod level;
pub mod logger;
pub mod rotation;
pub mod writer;

pub use builder::LoggerBuilder;
pub use display_options::LogDisplayOptions;
pub use format::LogFormat;
pub use level::{LogColor, LogLevel};
pub use rotation::LogRotation;
pub use writer::LogWriter;
