//! The plain logger.

use vstd::prelude::*;
use crate::infrastructure::logger::internal_logger::{
    record_view, InternalLogger, InternalLoggerView, LogRecord, LogRecordView,
};
use crate::infrastructure::logger::level::LogLevel as Threshold;
use crate::infrastructure::logger::logger::{MAX_LOG_COUNT, MAX_LOG_SIZE};
use super::level::LogLevel;

verus! {

/// The domain a message is written under: its own, or `Logger`.
pub open spec fn domain_or_default(domain: Option<String>) -> Seq<char> {
    match domain {
        Some(domain) => domain@,
        None => "Logger"@,
    }
}

/// A logger that does not filter by severity: it moves its level to the
/// severity of each message, so every message is written while the logger
/// is enabled.
pub struct Logger {
    inner: InternalLogger,
}

impl View for Logger {
    type V = InternalLoggerView;

    closed spec fn view(&self) -> InternalLoggerView {
        self.inner@
    }
}

impl Logger {
    /// This state after a message of the given severity and domain.
    pub open spec fn moved(
        state: InternalLoggerView,
        level: LogLevel,
        domain: Option<String>,
    ) -> InternalLoggerView {
        InternalLoggerView {
            domain: Some(domain_or_default(domain)),
            log_level: level.threshold(),
            ..state
        }
    }

    /// What is written for a message: the record, while the logger is enabled.
    pub open spec fn written(
        state: InternalLoggerView,
        level: LogLevel,
        domain: Option<String>,
        message: Seq<char>,
    ) -> Option<LogRecordView> {
        if state.is_enabled {
            Some(
                LogRecordView {
                    level: level.threshold(),
                    domain: domain_or_default(domain),
                    message,
                    to_file: state.writes_file(),
                },
            )
        } else {
            None
        }
    }

    /// The logger as the application starts it: enabled, writing under `logs`.
    pub fn new() -> (logger: Self)
        ensures
            logger@ == (InternalLoggerView {
                log_level: Threshold::Info,
                is_enabled: true,
                log_dir: Some("logs"@),
                max_log_size: MAX_LOG_SIZE,
                max_log_count: MAX_LOG_COUNT,
                domain: Some("Logger"@),
                current_log_path: None,
            }),
    {
        Logger {
            inner: InternalLogger::new(
                Threshold::Info,
                true,
                Some("logs".to_owned()),
                MAX_LOG_SIZE,
                MAX_LOG_COUNT,
                Some("Logger".to_owned()),
            ),
        }
    }

    pub fn debug(&mut self, domain: Option<String>, message: &str) -> (record: Option<LogRecord>)
        ensures
            final(self)@ == Self::moved(old(self)@, LogLevel::Debug, domain),
            record_view(record) == Self::written(old(self)@, LogLevel::Debug, domain, message@),
    {
        self.log(LogLevel::Debug, domain, message)
    }

    pub fn info(&mut self, domain: Option<String>, message: &str) -> (record: Option<LogRecord>)
        ensures
            final(self)@ == Self::moved(old(self)@, LogLevel::Info, domain),
            record_view(record) == Self::written(old(self)@, LogLevel::Info, domain, message@),
    {
        self.log(LogLevel::Info, domain, message)
    }

    pub fn warn(&mut self, domain: Option<String>, message: &str) -> (record: Option<LogRecord>)
        ensures
            final(self)@ == Self::moved(old(self)@, LogLevel::Warn, domain),
            record_view(record) == Self::written(old(self)@, LogLevel::Warn, domain, message@),
    {
        self.log(LogLevel::Warn, domain, message)
    }

    pub fn error(&mut self, domain: Option<String>, message: &str) -> (record: Option<LogRecord>)
        ensures
            final(self)@ == Self::moved(old(self)@, LogLevel::Error, domain),
            record_view(record) == Self::written(old(self)@, LogLevel::Error, domain, message@),
    {
        self.log(LogLevel::Error, domain, message)
    }

    /// Decides whether the log is rotated now, given its size in bytes if
    /// that could be read.
    pub fn rotate_logs(&mut self, size: Option<u64>) -> (due: bool)
        ensures
            due == old(self)@.rotation_due(size),
            final(self)@ == if due {
                InternalLoggerView { log_dir: None, ..old(self)@ }
            } else {
                old(self)@
            },
    {
        self.inner.rotate_logs(size)
    }

    pub fn set_log_enabled(&mut self, enabled: bool)
        ensures
            final(self)@ == (InternalLoggerView { is_enabled: enabled, ..old(self)@ }),
    {
        self.inner.set_enabled(enabled);
    }

    /// The state behind this logger.
    pub fn state(&self) -> (inner: &InternalLogger)
        ensures
            inner@ == self@,
    {
        &self.inner
    }

    /// Moves the logger to the domain and the severity of the message, and
    /// decides what to write for it.
    pub fn log(&mut self, level: LogLevel, domain: Option<String>, message: &str) -> (record:
        Option<LogRecord>)
        ensures
            final(self)@ == Self::moved(old(self)@, level, domain),
            record_view(record) == Self::written(old(self)@, level, domain, message@),
    {
        let tag = match domain {
            Some(domain) => domain,
            None => "Logger".to_owned(),
        };
        self.inner.set_domain(tag);
        self.inner.set_level(level.to_threshold());
        self.inner.log(level.to_threshold(), message)
    }
}

} // verus!
