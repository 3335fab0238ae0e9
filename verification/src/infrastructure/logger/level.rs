//! Log levels.

use vstd::prelude::*;

verus! {

/// The levels of logging, in order from `Off` to `Trace`. A logger writes the
/// messages whose level does not come before its own in this order.
#[derive(Debug, Clone, Copy, PartialEq, Eq, PartialOrd, Ord, Structural)]
pub enum LogLevel {
    Off,
    Error,
    Warn,
    Info,
    Debug,
    Trace,
}

/// The colour of a label on the console.
#[derive(Debug, Clone, Copy, PartialEq, Eq, Structural)]
pub enum LogColor {
    Blue,
    Green,
    Yellow,
    Red,
}

impl LogLevel {
    /// The colour the label of this level is shown in.
    pub open spec fn shade(self) -> LogColor {
        match self {
            LogLevel::Trace | LogLevel::Debug => LogColor::Blue,
            LogLevel::Info => LogColor::Green,
            LogLevel::Warn => LogColor::Yellow,
            LogLevel::Error | LogLevel::Off => LogColor::Red,
        }
    }

    /// The position of this level, from `Off` at 0 to `Trace` at 5.
    pub open spec fn rank(self) -> nat {
        match self {
            LogLevel::Off => 0,
            LogLevel::Error => 1,
            LogLevel::Warn => 2,
            LogLevel::Info => 3,
            LogLevel::Debug => 4,
            LogLevel::Trace => 5,
        }
    }

    /// The name of this level, capitalized.
    pub open spec fn name(self) -> Seq<char> {
        match self {
            LogLevel::Off => "Off"@,
            LogLevel::Error => "Error"@,
            LogLevel::Warn => "Warn"@,
            LogLevel::Info => "Info"@,
            LogLevel::Debug => "Debug"@,
            LogLevel::Trace => "Trace"@,
        }
    }

    /// The name of this level as log lines show it, in upper case.
    pub open spec fn label(self) -> Seq<char> {
        match self {
            LogLevel::Off => "OFF"@,
            LogLevel::Error => "ERROR"@,
            LogLevel::Warn => "WARN"@,
            LogLevel::Info => "INFO"@,
            LogLevel::Debug => "DEBUG"@,
            LogLevel::Trace => "TRACE"@,
        }
    }

    /// Whether a message of this level is written when logging is set to
    /// `threshold`: it is unless the level comes before the threshold in the
    /// order of the levels. At `Off` every message passes, at `Trace` only
    /// those of level `Trace`.
    pub open spec fn passes(self, threshold: LogLevel) -> bool {
        self.rank() >= threshold.rank()
    }

    pub fn severity(&self) -> (rank: u8)
        ensures
            rank == self.rank(),
    {
        match self {
            LogLevel::Off => 0,
            LogLevel::Error => 1,
            LogLevel::Warn => 2,
            LogLevel::Info => 3,
            LogLevel::Debug => 4,
            LogLevel::Trace => 5,
        }
    }

    /// Writes the name of this level, capitalized.
    pub fn to_string(&self) -> (text: String)
        ensures
            text@ == self.name(),
    {
        let name = match self {
            LogLevel::Off => "Off",
            LogLevel::Error => "Error",
            LogLevel::Warn => "Warn",
            LogLevel::Info => "Info",
            LogLevel::Debug => "Debug",
            LogLevel::Trace => "Trace",
        };
        name.to_owned()
    }

    /// The name of this level as log lines show it.
    pub fn as_label(&self) -> (text: &'static str)
        ensures
            text@ == self.label(),
    {
        match self {
            LogLevel::Off => "OFF",
            LogLevel::Error => "ERROR",
            LogLevel::Warn => "WARN",
            LogLevel::Info => "INFO",
            LogLevel::Debug => "DEBUG",
            LogLevel::Trace => "TRACE",
        }
    }

    /// The colour the label of this level is shown in.
    pub fn color(&self) -> (color: LogColor)
        ensures
            color == self.shade(),
    {
        match self {
            LogLevel::Trace | LogLevel::Debug => LogColor::Blue,
            LogLevel::Info => LogColor::Green,
            LogLevel::Warn => LogColor::Yellow,
            LogLevel::Error | LogLevel::Off => LogColor::Red,
        }
    }

    /// Whether a message of this level is written at `threshold`.
    pub fn is_enabled_at(&self, threshold: LogLevel) -> (enabled: bool)
        ensures
            enabled == self.passes(threshold),
    {
        self.severity() >= threshold.severity()
    }
}

} // verus!
