//! Logging severity levels and the threshold the shell configures.
//!
//! A diagnostic record carries a level; the logging capability is attached
//! with a verbosity threshold and emits exactly the records whose level is
//! at or above the threshold's urgency.

use vstd::prelude::*;

verus! {

/// A record's severity level, from most urgent (`Error`) to least (`Trace`).
#[derive(Clone, Copy, PartialEq, Eq, Structural, Debug)]
pub enum Level {
    Error,
    Warn,
    Info,
    Debug,
    Trace,
}

/// A verbosity threshold for a logging sink: `Off` emits nothing; every
/// other threshold emits the records at least as urgent as itself.
#[derive(Clone, Copy, PartialEq, Eq, Structural, Debug)]
pub enum LevelFilter {
    Off,
    Error,
    Warn,
    Info,
    Debug,
    Trace,
}

/// Verbosity rank of a record level: higher is chattier.
pub open spec fn level_rank(l: Level) -> int {
    match l {
        Level::Error => 1,
        Level::Warn => 2,
        Level::Info => 3,
        Level::Debug => 4,
        Level::Trace => 5,
    }
}

/// Verbosity rank of a threshold: higher admits more records, `Off` none.
pub open spec fn filter_rank(f: LevelFilter) -> int {
    match f {
        LevelFilter::Off => 0,
        LevelFilter::Error => 1,
        LevelFilter::Warn => 2,
        LevelFilter::Info => 3,
        LevelFilter::Debug => 4,
        LevelFilter::Trace => 5,
    }
}

/// Whether a sink configured with threshold `filter` emits a record of
/// level `record`.
pub open spec fn spec_emits(filter: LevelFilter, record: Level) -> bool {
    level_rank(record) <= filter_rank(filter)
}

/// The threshold the shell configures for its debug-build logging:
/// informational severity and above.
pub fn shell_log_filter() -> (r: LevelFilter)
    ensures
        r == LevelFilter::Info,
{
    LevelFilter::Info
}

/// Decides whether a sink with threshold `filter` emits a record of level
/// `record`.
pub fn emits(filter: LevelFilter, record: Level) -> (r: bool)
    ensures
        r == spec_emits(filter, record),
{
    level_rank_of(record) <= filter_rank_of(filter)
}

/// Verbosity rank of a record level, executable form.
pub fn level_rank_of(l: Level) -> (r: u8)
    ensures
        r as int == level_rank(l),
{
    match l {
        Level::Error => 1,
        Level::Warn => 2,
        Level::Info => 3,
        Level::Debug => 4,
        Level::Trace => 5,
    }
}

/// Verbosity rank of a threshold, executable form.
pub fn filter_rank_of(f: LevelFilter) -> (r: u8)
    ensures
        r as int == filter_rank(f),
{
    match f {
        LevelFilter::Off => 0,
        LevelFilter::Error => 1,
        LevelFilter::Warn => 2,
        LevelFilter::Info => 3,
        LevelFilter::Debug => 4,
        LevelFilter::Trace => 5,
    }
}

} // verus!
