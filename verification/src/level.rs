//! Severity levels of diagnostic records and the filtering rule the
//! attached logger applies to them.

use vstd::prelude::*;

verus! {

/// Severity of a diagnostic record, coarsest first.
#[derive(Clone, Copy, Debug, PartialEq, Eq, Structural)]
pub enum LogLevel {
    Error,
    Warn,
    Info,
    Debug,
    Trace,
}

impl LogLevel {
    /// Numeric rank of a level: coarser levels rank lower.
    pub open spec fn rank(self) -> nat {
        match self {
            LogLevel::Error => 0,
            LogLevel::Warn => 1,
            LogLevel::Info => 2,
            LogLevel::Debug => 3,
            LogLevel::Trace => 4,
        }
    }

    /// The rank as a machine integer.
    pub fn as_rank(self) -> (r: u8)
        ensures
            r == self.rank(),
    {
        match self {
            LogLevel::Error => 0,
            LogLevel::Warn => 1,
            LogLevel::Info => 2,
            LogLevel::Debug => 3,
            LogLevel::Trace => 4,
        }
    }

    /// Whether a record at level `self` passes a logger whose maximum
    /// reported severity is `max`: it passes exactly when it is no finer
    /// than `max`.
    pub fn passes(self, max: LogLevel) -> (r: bool)
        ensures
            r == record_passes(self, max),
    {
        self.as_rank() <= max.as_rank()
    }
}

/// A record at `level` is reported by a logger capped at `max` exactly when
/// the record is no finer-grained than the cap.
pub open spec fn record_passes(level: LogLevel, max: LogLevel) -> bool {
    level.rank() <= max.rank()
}

} // verus!
