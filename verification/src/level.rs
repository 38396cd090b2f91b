//! Severity levels and the threshold filter that decides which records are
//! dispatched.
//!
//! The five levels form a total order with `Error` the most severe and
//! `Trace` the least severe. A [`LevelFilter`] names the least severe level
//! still accepted; `Off` accepts nothing.

use vstd::prelude::*;

verus! {

/// Severity of a single log record. `Error` is the most severe level,
/// `Trace` the least severe.
#[derive(Clone, Copy, Debug, PartialEq, Eq, Structural)]
pub enum Level {
    Error,
    Warn,
    Info,
    Debug,
    Trace,
}

/// Threshold for a sink: the least severe [`Level`] still accepted.
/// `Off` accepts no record at all.
#[derive(Clone, Copy, Debug, PartialEq, Eq, Structural)]
pub enum LevelFilter {
    Off,
    Error,
    Warn,
    Info,
    Debug,
    Trace,
}

/// Rank of a level: low numbers are severe. `Error` has the smallest rank.
pub open spec fn level_rank(level: Level) -> nat {
    match level {
        Level::Error => 1,
        Level::Warn => 2,
        Level::Info => 3,
        Level::Debug => 4,
        Level::Trace => 5,
    }
}

/// Rank of a filter: the largest level rank it accepts. `Off` accepts none.
pub open spec fn filter_rank(filter: LevelFilter) -> nat {
    match filter {
        LevelFilter::Off => 0,
        LevelFilter::Error => 1,
        LevelFilter::Warn => 2,
        LevelFilter::Info => 3,
        LevelFilter::Debug => 4,
        LevelFilter::Trace => 5,
    }
}

/// A record at `level` passes a sink whose threshold is `filter` iff the
/// level is at least as severe as the threshold.
pub open spec fn spec_level_enabled(level: Level, filter: LevelFilter) -> bool {
    level_rank(level) <= filter_rank(filter)
}

/// The upper-case name of a level, as the default encoders write it.
pub open spec fn level_chars(level: Level) -> Seq<char> {
    match level {
        Level::Error => "ERROR"@,
        Level::Warn => "WARN"@,
        Level::Info => "INFO"@,
        Level::Debug => "DEBUG"@,
        Level::Trace => "TRACE"@,
    }
}

/// The upper-case name of a level.
pub fn level_str(level: Level) -> (name: &'static str)
    ensures
        name@ == level_chars(level),
{
    match level {
        Level::Error => "ERROR",
        Level::Warn => "WARN",
        Level::Info => "INFO",
        Level::Debug => "DEBUG",
        Level::Trace => "TRACE",
    }
}

/// Decides whether a record at `level` is dispatched by a sink whose
/// threshold is `filter`: true iff `level` is at least as severe as the
/// threshold, under the order `Error > Warn > Info > Debug > Trace`.
pub fn level_enabled(level: Level, filter: LevelFilter) -> (enabled: bool)
    ensures
        enabled == spec_level_enabled(level, filter),
{
    let level_value: u8 = match level {
        Level::Error => 1,
        Level::Warn => 2,
        Level::Info => 3,
        Level::Debug => 4,
        Level::Trace => 5,
    };
    let filter_value: u8 = match filter {
        LevelFilter::Off => 0,
        LevelFilter::Error => 1,
        LevelFilter::Warn => 2,
        LevelFilter::Info => 3,
        LevelFilter::Debug => 4,
        LevelFilter::Trace => 5,
    };
    level_value <= filter_value
}

} // verus!
