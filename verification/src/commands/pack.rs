//! The single gesture, and what the window learns from it.

use vstd::prelude::*;
use super::{verdict, verdict_of, LaunchReport};
use crate::text::owned;

verus! {

/// What a gesture left behind: the same for installing and for playing,
/// which leave the same traces; only the verdict differs.
#[derive(Debug, Clone, PartialEq, Eq)]
pub struct Report {
    /// What the gesture left, said in one sentence.
    pub verdict: String,
    /// Did an installation take place?
    pub caught_up: bool,
    /// The mods the resolution did not find.
    pub missing: Vec<String>,
    /// What the installation drifted from the published lock.
    pub drifts: Vec<String>,
    /// The remote pack was unreachable.
    pub offline: bool,
    /// What the purge erased, if there was a purge.
    pub purge: Vec<String>,
}

/// What the update reported, in plain values: whether an installation took
/// place and what its purge erased, what the resolution missed and drifted,
/// whether the remote pack was reachable.
#[derive(Debug, Clone, PartialEq, Eq)]
pub struct UpdateSummary {
    /// The purge's erased files when an installation took place, nothing
    /// when the pack was already up to date.
    pub installation: Option<Vec<String>>,
    pub missing: Vec<String>,
    pub drifts: Vec<String>,
    pub offline: bool,
}

/// The verdict of an installation that placed the pack.
pub const INSTALLED: &'static str = "The pack is installed.";

/// The verdict of an installation that found nothing to do.
pub const ALREADY_UP_TO_DATE: &'static str = "The pack was already up to date: nothing to place.";

/// The verdict of a play gesture whose session left no report.
pub const SESSION_ENDED: &'static str = "Session ended.";

/// The report of an update, with the verdict given.
pub open spec fn report_of(outcome: UpdateSummary, verdict: Seq<char>) -> (
    Seq<char>,
    bool,
    Seq<String>,
    Seq<String>,
    bool,
    Seq<String>,
) {
    (
        verdict,
        outcome.installation is Some,
        outcome.missing@,
        outcome.drifts@,
        outcome.offline,
        match outcome.installation {
            Some(p) => p@,
            None => Seq::empty(),
        },
    )
}

/// The fields of a report, as one value.
pub open spec fn fields(r: Report) -> (Seq<char>, bool, Seq<String>, Seq<String>, bool, Seq<String>) {
    (r.verdict@, r.caught_up, r.missing@, r.drifts@, r.offline, r.purge@)
}

/// The report for an outcome, with the verdict that matches the gesture;
/// one function for both gestures, so neither can lose a field.
pub fn report(outcome: UpdateSummary, verdict: String) -> (r: Report)
    ensures
        fields(r) == report_of(outcome, verdict@),
{
    let caught_up = outcome.installation.is_some();
    let purge = match outcome.installation {
        Some(p) => p,
        None => Vec::new(),
    };
    Report {
        verdict,
        caught_up,
        missing: outcome.missing,
        drifts: outcome.drifts,
        offline: outcome.offline,
        purge,
    }
}

/// What the install gesture reports: the pack laid down, and nothing more.
pub fn installed(outcome: UpdateSummary) -> (r: Report)
    ensures
        fields(r) == report_of(
            outcome,
            if outcome.installation is Some {
                INSTALLED@
            } else {
                ALREADY_UP_TO_DATE@
            },
        ),
{
    let verdict = if outcome.installation.is_some() {
        owned(INSTALLED)
    } else {
        owned(ALREADY_UP_TO_DATE)
    };
    report(outcome, verdict)
}

/// What the play gesture reports: the session's own verdict.
pub fn played(outcome: UpdateSummary, session: &Option<LaunchReport>) -> (r: Report)
    ensures
        fields(r) == report_of(
            outcome,
            match session {
                Some(s) => verdict_of(*s),
                None => SESSION_ENDED@,
            },
        ),
{
    let verdict = match session {
        Some(s) => verdict(s),
        None => owned(SESSION_ENDED),
    };
    report(outcome, verdict)
}

} // verus!
