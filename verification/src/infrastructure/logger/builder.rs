//! The options of the log subscriber.

use vstd::prelude::*;
use super::display_options::LogDisplayOptions;
use super::format::LogFormat;
use super::level::LogLevel;
use super::rotation::LogRotation;
use super::writer::LogWriter;

verus! {

/// The options of the process-wide log subscriber, set one at a time.
#[derive(Debug, Clone)]
pub struct LoggerBuilder {
    level: LogLevel,
    writer: LogWriter,
    directory: String,
    file_prefix: String,
    rolling: LogRotation,
    format: LogFormat,
    display_options: LogDisplayOptions,
}

/// The mathematical model of a [`LoggerBuilder`].
pub struct LoggerBuilderView {
    pub level: LogLevel,
    pub writer: LogWriter,
    pub directory: Seq<char>,
    pub file_prefix: Seq<char>,
    pub rolling: LogRotation,
    pub format: LogFormat,
    pub display_options: LogDisplayOptions,
}

impl LoggerBuilderView {
    /// The options a builder starts with: level `Info`, written to daily
    /// files under `./logs` without a prefix, in the compact format.
    pub open spec fn standard() -> LoggerBuilderView {
        LoggerBuilderView {
            level: LogLevel::Info,
            writer: LogWriter::File,
            directory: "./logs"@,
            file_prefix: ""@,
            rolling: LogRotation::Daily,
            format: LogFormat::Compact,
            display_options: LogDisplayOptions::standard(),
        }
    }
}

impl View for LoggerBuilder {
    type V = LoggerBuilderView;

    closed spec fn view(&self) -> LoggerBuilderView {
        LoggerBuilderView {
            level: self.level,
            writer: self.writer,
            directory: self.directory@,
            file_prefix: self.file_prefix@,
            rolling: self.rolling,
            format: self.format,
            display_options: self.display_options,
        }
    }
}

impl Default for LoggerBuilder {
    fn default() -> (builder: Self)
        ensures
            builder@ == LoggerBuilderView::standard(),
    {
        Self {
            level: LogLevel::Info,
            writer: LogWriter::File,
            directory: "./logs".to_owned(),
            file_prefix: "".to_owned(),
            rolling: LogRotation::Daily,
            format: LogFormat::Compact,
            display_options: LogDisplayOptions::default(),
        }
    }
}

impl LoggerBuilder {
    pub fn with_level(self, level: LogLevel) -> (builder: Self)
        ensures
            builder@ == (LoggerBuilderView { level, ..self@ }),
    {
        let mut builder = self;
        builder.level = level;
        builder
    }

    pub fn with_writer(self, writer: LogWriter) -> (builder: Self)
        ensures
            builder@ == (LoggerBuilderView { writer, ..self@ }),
    {
        let mut builder = self;
        builder.writer = writer;
        builder
    }

    pub fn with_directory(self, directory: &str) -> (builder: Self)
        ensures
            builder@ == (LoggerBuilderView { directory: directory@, ..self@ }),
    {
        let mut builder = self;
        builder.directory = directory.to_owned();
        builder
    }

    pub fn with_file_prefix(self, file_prefix: &str) -> (builder: Self)
        ensures
            builder@ == (LoggerBuilderView { file_prefix: file_prefix@, ..self@ }),
    {
        let mut builder = self;
        builder.file_prefix = file_prefix.to_owned();
        builder
    }

    pub fn with_rolling(self, rolling: LogRotation) -> (builder: Self)
        ensures
            builder@ == (LoggerBuilderView { rolling, ..self@ }),
    {
        let mut builder = self;
        builder.rolling = rolling;
        builder
    }

    pub fn with_format(self, format: LogFormat) -> (builder: Self)
        ensures
            builder@ == (LoggerBuilderView { format, ..self@ }),
    {
        let mut builder = self;
        builder.format = format;
        builder
    }

    pub fn with_display_options(self, display_options: LogDisplayOptions) -> (builder: Self)
        ensures
            builder@ == (LoggerBuilderView { display_options, ..self@ }),
    {
        let mut builder = self;
        builder.display_options = display_options;
        builder
    }

    pub fn level(&self) -> (level: LogLevel)
        ensures
            level == self@.level,
    {
        self.level
    }

    pub fn writer(&self) -> (writer: LogWriter)
        ensures
            writer == self@.writer,
    {
        self.writer
    }

    pub fn directory(&self) -> (directory: &str)
        ensures
            directory@ == self@.directory,
    {
        self.directory.as_str()
    }

    pub fn file_prefix(&self) -> (file_prefix: &str)
        ensures
            file_prefix@ == self@.file_prefix,
    {
        self.file_prefix.as_str()
    }

    pub fn rolling(&self) -> (rolling: LogRotation)
        ensures
            rolling == self@.rolling,
    {
        self.rolling
    }

    pub fn format(&self) -> (format: LogFormat)
        ensures
            format == self@.format,
    {
        self.format
    }

    pub fn display_options(&self) -> (display_options: LogDisplayOptions)
        ensures
            display_options == self@.display_options,
    {
        self.display_options
    }

    /// The filter directive the subscriber falls back to: the name of the
    /// level.
    pub fn filter_directive(&self) -> (directive: String)
        ensures
            directive@ == self@.level.name(),
    {
        self.level.to_string()
    }

    /// Whether log lines carry terminal colours: only on the console.
    pub fn uses_ansi(&self) -> (ansi: bool)
        ensures
            ansi == (self@.writer == LogWriter::Console),
    {
        match self.writer {
            LogWriter::Console => true,
            LogWriter::File => false,
        }
    }
}

} // verus!
