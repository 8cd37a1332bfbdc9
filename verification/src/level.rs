//! Severity levels and the level threshold used for filtering.

use vstd::prelude::*;

verus! {

/// Severity of a log event, ordered from least severe (`Trace`) to most
/// severe (`Error`).
#[derive(Clone, Copy, Debug, Hash, PartialEq, Eq, Structural)]
pub enum Level {
    /// designates very low priority, often extremely verbose, information
    Trace,
    /// designates lower priority information
    Debug,
    /// designates useful information
    Info,
    /// designates hazardous situations
    Warn,
    /// designates very serious errors
    Error,
}

/// Severity threshold for a logger: either all events are discarded
/// (`Off`), or events at least as severe as the named level pass.
#[derive(Clone, Copy, Debug, Hash, PartialEq, Eq, Structural)]
pub enum LevelFilter {
    /// discard every event
    Off,
    /// let only `Error` pass
    Error,
    /// let `Warn` and above pass
    Warn,
    /// let `Info` and above pass
    Info,
    /// let `Debug` and above pass
    Debug,
    /// let every event pass
    Trace,
}

/// Rank of a level: smaller ranks are more severe.
pub open spec fn level_rank(level: Level) -> int {
    match level {
        Level::Error => 1,
        Level::Warn => 2,
        Level::Info => 3,
        Level::Debug => 4,
        Level::Trace => 5,
    }
}

/// Rank of a filter: a level passes a filter exactly when its rank is at
/// most the filter's rank.
pub open spec fn filter_rank(filter: LevelFilter) -> int {
    match filter {
        LevelFilter::Off => 0,
        LevelFilter::Error => 1,
        LevelFilter::Warn => 2,
        LevelFilter::Info => 3,
        LevelFilter::Debug => 4,
        LevelFilter::Trace => 5,
    }
}

/// Whether an event at `level` passes the threshold `filter`.
pub open spec fn level_passes(level: Level, filter: LevelFilter) -> bool {
    level_rank(level) <= filter_rank(filter)
}

/// Whether `level` is one of the high-severity levels that are emphasized
/// and may be split off to the error stream.
pub open spec fn is_high_severity(level: Level) -> bool {
    level == Level::Warn || level == Level::Error
}

/// The upper-case name of a level, as it appears in formatted records.
pub open spec fn level_name(level: Level) -> Seq<char> {
    match level {
        Level::Trace => "TRACE"@,
        Level::Debug => "DEBUG"@,
        Level::Info => "INFO"@,
        Level::Warn => "WARN"@,
        Level::Error => "ERROR"@,
    }
}

impl Level {
    /// Return the upper-case name of this level.
    pub fn name(&self) -> (name: &'static str)
        ensures
            name@ == level_name(*self),
    {
        match self {
            Level::Trace => "TRACE",
            Level::Debug => "DEBUG",
            Level::Info => "INFO",
            Level::Warn => "WARN",
            Level::Error => "ERROR",
        }
    }

    /// Whether an event at this level passes the threshold `filter`.
    pub fn passes(&self, filter: LevelFilter) -> (pass: bool)
        ensures
            pass == level_passes(*self, filter),
    {
        let level_rank: u8 = match self {
            Level::Error => 1,
            Level::Warn => 2,
            Level::Info => 3,
            Level::Debug => 4,
            Level::Trace => 5,
        };
        let filter_rank: u8 = match filter {
            LevelFilter::Off => 0,
            LevelFilter::Error => 1,
            LevelFilter::Warn => 2,
            LevelFilter::Info => 3,
            LevelFilter::Debug => 4,
            LevelFilter::Trace => 5,
        };
        level_rank <= filter_rank
    }
}

} // verus!
