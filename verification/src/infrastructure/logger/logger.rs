//! The application's logger.

use vstd::prelude::*;
use crate::infrastructure::text::same_text;
use super::internal_logger::{record_view, InternalLogger, InternalLoggerView, LogRecord};
use super::level::LogLevel;

verus! {

/// The largest size a log reaches before it is rotated: 10 MiB.
pub const MAX_LOG_SIZE: u64 = 10_485_760;

/// How many log files are kept.
pub const MAX_LOG_COUNT: usize = 3;

/// The application's logger: messages carry a domain tag and one of four
/// levels, and are written when the logger is enabled and the level of the
/// message does not come before the level of the logger.
pub struct Logger {
    inner: InternalLogger,
}

impl View for Logger {
    type V = InternalLoggerView;

    closed spec fn view(&self) -> InternalLoggerView {
        self.inner@
    }
}

impl Logger {
    /// The logger as the application starts it: enabled, at level `Info`,
    /// writing under `logs`.
    pub fn new() -> (logger: Self)
        ensures
            logger@ == (InternalLoggerView {
                log_level: LogLevel::Info,
                is_enabled: true,
                log_dir: Some("logs"@),
                max_log_size: MAX_LOG_SIZE,
                max_log_count: MAX_LOG_COUNT,
                domain: Some("Logger"@),
                current_log_path: None,
            }),
    {
        Logger {
            inner: InternalLogger::new(
                LogLevel::Info,
                true,
                Some("logs".to_owned()),
                MAX_LOG_SIZE,
                MAX_LOG_COUNT,
                Some("Logger".to_owned()),
            ),
        }
    }

    pub fn log_level(&self) -> (level: LogLevel)
        ensures
            level == self@.log_level,
    {
        self.inner.log_level()
    }

    pub fn set_log_level(&mut self, level: LogLevel)
        ensures
            final(self)@ == (InternalLoggerView { log_level: level, ..old(self)@ }),
    {
        self.inner.set_level(level);
    }

    pub fn set_log_enabled(&mut self, enabled: bool)
        ensures
            final(self)@ == (InternalLoggerView { is_enabled: enabled, ..old(self)@ }),
    {
        self.inner.set_enabled(enabled);
    }

    pub fn debug(&mut self, domain: String, message: &str) -> (record: Option<LogRecord>)
        ensures
            final(self)@ == old(self)@.tagged(domain@),
            record_view(record) == final(self)@.record(LogLevel::Debug, message@),
    {
        self.log(LogLevel::Debug, domain, message)
    }

    pub fn info(&mut self, domain: String, message: &str) -> (record: Option<LogRecord>)
        ensures
            final(self)@ == old(self)@.tagged(domain@),
            record_view(record) == final(self)@.record(LogLevel::Info, message@),
    {
        self.log(LogLevel::Info, domain, message)
    }

    pub fn warn(&mut self, domain: String, message: &str) -> (record: Option<LogRecord>)
        ensures
            final(self)@ == old(self)@.tagged(domain@),
            record_view(record) == final(self)@.record(LogLevel::Warn, message@),
    {
        self.log(LogLevel::Warn, domain, message)
    }

    pub fn error(&mut self, domain: String, message: &str) -> (record: Option<LogRecord>)
        ensures
            final(self)@ == old(self)@.tagged(domain@),
            record_view(record) == final(self)@.record(LogLevel::Error, message@),
    {
        self.log(LogLevel::Error, domain, message)
    }

    /// Decides whether the log is rotated now, given its size in bytes if
    /// that could be read.
    pub fn rotate_logs(&mut self, size: Option<u64>) -> (due: bool)
        ensures
            due == old(self)@.rotation_due(size),
            final(self)@ == if due {
                InternalLoggerView { log_dir: None, ..old(self)@ }
            } else {
                old(self)@
            },
    {
        self.inner.rotate_logs(size)
    }

    /// Records that the log file at `path` is open.
    pub fn log_file_opened(&mut self, path: String)
        ensures
            final(self)@ == (InternalLoggerView { current_log_path: Some(path@), ..old(self)@ }),
    {
        self.inner.log_file_opened(path);
    }

    /// The state behind this logger.
    pub fn state(&self) -> (inner: &InternalLogger)
        ensures
            inner@ == self@,
    {
        &self.inner
    }

    /// Tags the logger with the domain of the message, `LOGGER` when the
    /// message has none, and decides what to write for it.
    pub fn log(&mut self, level: LogLevel, domain: String, message: &str) -> (record: Option<
        LogRecord,
    >)
        ensures
            final(self)@ == old(self)@.tagged(domain@),
            record_view(record) == final(self)@.record(level, message@),
    {
        let tag = if same_text(domain.as_str(), "") {
            "LOGGER".to_owned()
        } else {
            domain
        };
        proof {
            reveal_strlit("");
            assert(domain@.len() == 0 <==> domain@ =~= ""@);
        }
        self.inner.set_domain(tag);
        self.inner.log(level, message)
    }
}

} // verus!
