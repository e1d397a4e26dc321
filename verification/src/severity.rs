//! The six severities, their names, and the rule that gates a message.

use vstd::prelude::*;

verus! {

/// Least urgent severity.
pub const TRACE: u32 = 5;

pub const DEBUG: u32 = 4;

pub const INFO: u32 = 3;

pub const WARNING: u32 = 2;

pub const ERROR: u32 = 1;

/// Most urgent severity.
pub const FATAL: u32 = 0;

/// A level names one of the six severities.
pub open spec fn is_severity(level: u32) -> bool {
    FATAL <= level <= TRACE
}

/// A message of severity `level` is emitted under `threshold` exactly when it
/// is at least as urgent, that is, when its number is not the larger one.
pub open spec fn emits(level: u32, threshold: u32) -> bool {
    level <= threshold
}

/// The name printed for a level; empty for a number that is no severity.
pub open spec fn level_name(level: u32) -> Seq<char> {
    if level == TRACE {
        "TRACE"@
    } else if level == DEBUG {
        "DEBUG"@
    } else if level == INFO {
        "INFO"@
    } else if level == WARNING {
        "WARNING"@
    } else if level == ERROR {
        "ERROR"@
    } else if level == FATAL {
        "FATAL"@
    } else {
        ""@
    }
}

/// Tells whether `level` is one of the six severities.
pub fn is_valid_level(level: u32) -> (r: bool)
    ensures
        r == is_severity(level),
{
    level >= FATAL && level <= TRACE
}

/// The name of a severity as it appears in a record.
pub fn level_to_string(level: u32) -> (name: String)
    ensures
        name@ == level_name(level),
{
    let text = match level {
        TRACE => "TRACE",
        DEBUG => "DEBUG",
        INFO => "INFO",
        WARNING => "WARNING",
        ERROR => "ERROR",
        FATAL => "FATAL",
        _ => "",
    };
    String::from_str(text)
}

} // verus!
