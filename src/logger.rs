//! Log verbosity as named in the configuration.
use vstd::prelude::*;
use vstd::string::*;

verus! {

/// How much the process logs, from nothing to everything.
#[derive(Clone, Copy, Debug, PartialEq, Eq, Structural)]
pub enum LevelFilter {
    Off,
    Error,
    Warn,
    Info,
    Debug,
    Trace,
}

/// The level a configured name stands for; an unknown name turns logging
/// off.
pub open spec fn level_of(name: Seq<char>) -> LevelFilter {
    if name == "debug"@ {
        LevelFilter::Debug
    } else if name == "info"@ {
        LevelFilter::Info
    } else if name == "trace"@ {
        LevelFilter::Trace
    } else if name == "error"@ {
        LevelFilter::Error
    } else if name == "warn"@ {
        LevelFilter::Warn
    } else {
        LevelFilter::Off
    }
}

fn is_named(level: &String, name: &str) -> (r: bool)
    ensures
        r == (level@ == name@),
{
    *level == String::from_str(name)
}

/// Maps the configured level name to a level filter.
pub fn level_filter(level: &String) -> (r: LevelFilter)
    ensures
        r == level_of(level@),
{
    if is_named(level, "debug") {
        LevelFilter::Debug
    } else if is_named(level, "info") {
        LevelFilter::Info
    } else if is_named(level, "trace") {
        LevelFilter::Trace
    } else if is_named(level, "error") {
        LevelFilter::Error
    } else if is_named(level, "warn") {
        LevelFilter::Warn
    } else {
        LevelFilter::Off
    }
}

} // verus!
