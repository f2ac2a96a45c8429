//! The locations the framework knows, imposed on the whole process, and
//! what is said when the environment would have put the data elsewhere.

use vstd::prelude::*;
use crate::text::{append, owned};

verus! {

/// The characters of an optional string.
pub open spec fn opt_view(o: Option<String>) -> Option<Seq<char>> {
    match o {
        Some(s) => Some(s@),
        None => None,
    }
}

/// What follows the mismatch when it is logged.
pub const MISMATCH_TAIL: &'static str = " — the two resolvers do not agree; the crates follow Tauri";

/// The mismatch between where the framework stores the data and where the
/// environment says it goes.
pub open spec fn mismatch_text(wanted: Seq<char>, fallback: Seq<char>) -> Seq<char> {
    "Tauri stores data under "@ + wanted + " where the environment says "@ + fallback
}

/// Says where the two resolvers put the data.
pub fn mismatch_message(wanted: &str, fallback: &str) -> (r: String)
    ensures
        r@ == mismatch_text(wanted@, fallback@),
{
    let mut t = owned("Tauri stores data under ");
    append(&mut t, wanted);
    append(&mut t, " where the environment says ");
    append(&mut t, fallback);
    t
}

/// Whether two paths name the same directory, as `Path`'s equality says:
/// component by component.
pub uninterp spec fn same_directory(a: Seq<char>, b: Seq<char>) -> bool;

/// `Path::new(a) == Path::new(b)`. Its result is named by
/// `same_directory`; the one fact stated beside the name is that a path
/// names the same directory as itself.
#[verifier::external_body]
pub(crate) fn same_path(a: &str, b: &str) -> (r: bool)
    ensures
        r == same_directory(a@, b@),
        a@ == b@ ==> r,
{
    std::path::Path::new(a) == std::path::Path::new(b)
}

/// What placement records: the mismatch, when the two data directories
/// are not the same one, and nothing otherwise.
pub open spec fn recorded_mismatch(wanted: Seq<char>, fallback: Seq<char>) -> Option<Seq<char>> {
    if same_directory(wanted, fallback) {
        None
    } else {
        Some(mismatch_text(wanted, fallback))
    }
}

/// The line logged for what placement recorded.
pub open spec fn logged_line(recorded: Option<Seq<char>>) -> Option<Seq<char>> {
    match recorded {
        Some(m) => Some(m + MISMATCH_TAIL@),
        None => None,
    }
}

/// What placement records of the two data directories.
pub fn mismatch(wanted: &str, fallback: &str) -> (r: Option<String>)
    ensures
        match r {
            Some(m) => recorded_mismatch(wanted@, fallback@) == Some(m@),
            None => recorded_mismatch(wanted@, fallback@) is None,
        },
{
    if same_path(wanted, fallback) {
        None
    } else {
        Some(mismatch_message(wanted, fallback))
    }
}

/// The line to log once the log is open, if placement found a mismatch.
pub fn log_the_mismatch(recorded: &Option<String>) -> (r: Option<String>)
    ensures
        match r {
            Some(line) => logged_line(opt_view(*recorded)) == Some(line@),
            None => logged_line(opt_view(*recorded)) is None,
        },
{
    match recorded {
        Some(m) => {
            let mut line = owned(m.as_str());
            append(&mut line, MISMATCH_TAIL);
            Some(line)
        },
        None => None,
    }
}

/// A line is logged exactly when the two data directories are not the
/// same, and it names both; a directory never mismatches itself.
pub proof fn law_a_mismatch_is_logged_iff_the_directories_differ(wanted: Seq<char>, fallback: Seq<char>)
    ensures
        logged_line(recorded_mismatch(wanted, fallback)) is Some <==> !same_directory(wanted, fallback),
        !same_directory(wanted, fallback) ==> logged_line(recorded_mismatch(wanted, fallback))
            == Some(mismatch_text(wanted, fallback) + MISMATCH_TAIL@),
{
}

} // verus!
