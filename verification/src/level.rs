//! Severity levels and their numbers on the wire.

use vstd::prelude::*;

verus! {

/// The severity of a span or an event, most severe first.
#[derive(Clone, Copy, Debug, PartialEq, Eq, Structural)]
pub enum Level {
    Error,
    Warn,
    Info,
    Debug,
    Trace,
}

/// Wire number of an error.
pub const LEVEL_ERROR: u8 = 2;

/// Wire number of a warning.
pub const LEVEL_WARNING: u8 = 3;

/// Wire number of an informational record.
pub const LEVEL_INFORMATIONAL: u8 = 4;

/// Wire number of a verbose record.
pub const LEVEL_VERBOSE: u8 = 5;

/// The wire number of each level.
pub open spec fn level_number(level: Level) -> u8 {
    match level {
        Level::Error => 2,
        Level::Warn => 3,
        Level::Info => 4,
        Level::Debug => 5,
        Level::Trace => 6,
    }
}

/// Maps a severity to the number that both wire formats use for it. Tracing
/// is one step more verbose than the most verbose level the formats name.
pub fn map_level(level: &Level) -> (out: u8)
    ensures
        out == level_number(*level),
        LEVEL_ERROR <= out <= LEVEL_VERBOSE + 1,
{
    match level {
        Level::Error => LEVEL_ERROR,
        Level::Warn => LEVEL_WARNING,
        Level::Info => LEVEL_INFORMATIONAL,
        Level::Debug => LEVEL_VERBOSE,
        Level::Trace => LEVEL_VERBOSE + 1,
    }
}

} // verus!
