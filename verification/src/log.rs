//! What the front end tells the log.
//!
//! The window has no inspector in production; the front end's lines are
//! written into the same stream as the process's, under the calling
//! window's label. What is decided here is the level a line gets.

use vstd::prelude::*;
use crate::text::{chars_of, same};

verus! {

/// The levels of the log, from the most to the least severe.
#[derive(Debug, Clone, Copy, PartialEq, Eq, Structural)]
pub enum Level {
    Error,
    Warn,
    Info,
    Debug,
    Trace,
}

/// The level a name stands for: the five names the front end uses, and
/// `info` for anything else, so that a mislabeled line is not lost.
pub open spec fn level_named(raw: Seq<char>) -> Level {
    if raw == "error"@ {
        Level::Error
    } else if raw == "warn"@ {
        Level::Warn
    } else if raw == "debug"@ {
        Level::Debug
    } else if raw == "trace"@ {
        Level::Trace
    } else {
        Level::Info
    }
}

/// Is `raw` exactly `name`?
pub(crate) fn is_named(raw: &str, name: &str) -> (r: bool)
    ensures
        r == (raw@ == name@),
{
    same(&chars_of(raw), &chars_of(name))
}

/// What the front end may ask for, and nothing else.
pub fn level_of(raw: &str) -> (r: Level)
    ensures
        r == level_named(raw@),
{
    if is_named(raw, "error") {
        Level::Error
    } else if is_named(raw, "warn") {
        Level::Warn
    } else if is_named(raw, "debug") {
        Level::Debug
    } else if is_named(raw, "trace") {
        Level::Trace
    } else {
        Level::Info
    }
}

} // verus!
