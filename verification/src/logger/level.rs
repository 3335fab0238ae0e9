//! Severities.

use core::cmp::Ordering;
use vstd::prelude::*;
use vstd::std_specs::cmp::PartialOrdSpecImpl;
use crate::infrastructure::logger::level::LogLevel as Threshold;

verus! {

/// How much a message matters, from `Debug` up to `Error`.
#[derive(Debug, PartialEq, Eq, Clone, Copy, Ord, Structural)]
pub enum LogLevel {
    Debug,
    Info,
    Warn,
    Error,
}

impl LogLevel {
    /// The weight of this severity, from 1 for `Debug` to 4 for `Error`.
    pub open spec fn rank(self) -> int {
        match self {
            LogLevel::Debug => 1,
            LogLevel::Info => 2,
            LogLevel::Warn => 3,
            LogLevel::Error => 4,
        }
    }

    /// The level of the same name among the levels that a logger filters by.
    pub open spec fn threshold(self) -> Threshold {
        match self {
            LogLevel::Debug => Threshold::Debug,
            LogLevel::Info => Threshold::Info,
            LogLevel::Warn => Threshold::Warn,
            LogLevel::Error => Threshold::Error,
        }
    }

    pub fn weight(&self) -> (weight: u8)
        ensures
            weight == self.rank(),
    {
        match self {
            LogLevel::Debug => 1,
            LogLevel::Info => 2,
            LogLevel::Warn => 3,
            LogLevel::Error => 4,
        }
    }

    /// The level of the same name among the levels that a logger filters by.
    pub fn to_threshold(&self) -> (level: Threshold)
        ensures
            level == self.threshold(),
    {
        match self {
            LogLevel::Debug => Threshold::Debug,
            LogLevel::Info => Threshold::Info,
            LogLevel::Warn => Threshold::Warn,
            LogLevel::Error => Threshold::Error,
        }
    }
}

impl PartialOrd for LogLevel {
    fn partial_cmp(&self, other: &Self) -> (order: Option<Ordering>) {
        let left = self.weight();
        let right = other.weight();
        if left < right {
            Some(Ordering::Less)
        } else if left == right {
            Some(Ordering::Equal)
        } else {
            Some(Ordering::Greater)
        }
    }
}

impl PartialOrdSpecImpl for LogLevel {
    open spec fn obeys_partial_cmp_spec() -> bool {
        true
    }

    /// Severities are ordered by weight.
    open spec fn partial_cmp_spec(&self, other: &Self) -> Option<Ordering> {
        if self.rank() < other.rank() {
            Some(Ordering::Less)
        } else if self.rank() == other.rank() {
            Some(Ordering::Equal)
        } else {
            Some(Ordering::Greater)
        }
    }
}

} // verus!
