//! What the interface is allowed to call, as far as it decides anything.
//!
//! Authenticating, installing and launching belong to other crates; what
//! stays here is what the window is told: the path, the account, the
//! errors in one readable chain, and the sentence a game session ends on.

pub mod news;
pub mod pack;
pub mod server;
pub mod settings;

use vstd::prelude::*;
use crate::phase::{label_of, lemma_all_ranks, rank_of, Phase};
use crate::text::{append, owned, push_signed_decimal, signed_dec};

verus! {

/// The event that carries the device code to the window.
pub const DEVICE_CODE_EVENT: &'static str = "auth://code";

/// What separates two causes of an error, from the outermost in.
pub const CHAIN_SEPARATOR: &'static str = " : ";

/// The signed-in account, as the window displays it.
#[derive(Debug, Clone, PartialEq, Eq)]
pub struct Account {
    pub username: String,
    pub uuid: String,
    /// False when the account does not own Minecraft Java Edition: the
    /// sign-in still succeeds, and no online server will accept it.
    pub owns_the_game: bool,
}

/// What the player has to type in on Microsoft's side.
#[derive(Debug, Clone, PartialEq, Eq)]
pub struct DeviceCodeView {
    pub code: String,
    /// The page where the code is typed in by hand.
    pub url: String,
    /// The same page, with the code prefilled: the one that gets opened.
    pub direct_url: String,
}

/// An error, as it crosses the bridge to the window: its whole chain of
/// causes, so that "Microsoft sign-in" is told apart from "Microsoft
/// sign-in : the code has expired".
#[derive(Debug, Clone, PartialEq, Eq)]
pub struct Error(pub String);

/// A phase of the path, as the window draws it.
#[derive(Debug, Clone, PartialEq, Eq)]
pub struct StepView {
    pub phase: Phase,
    pub label: String,
    pub rank: usize,
}

/// The causes of an error, from the outermost in, joined.
pub open spec fn joined(causes: Seq<Seq<char>>, separator: Seq<char>) -> Seq<char>
    decreases causes.len(),
{
    if causes.len() == 0 {
        Seq::empty()
    } else if causes.len() == 1 {
        causes[0]
    } else {
        joined(causes.drop_last(), separator) + separator + causes.last()
    }
}

/// Joins texts with a separator.
pub(crate) fn join(parts: &Vec<String>, separator: &str) -> (r: String)
    ensures
        r@ == joined(parts.deep_view(), separator@),
{
    let mut out = String::new();
    let mut i: usize = 0;
    let ghost all = parts.deep_view();
    while i < parts.len()
        invariant
            i <= parts.len(),
            all == parts.deep_view(),
            out@ == joined(all.take(i as int), separator@),
        decreases parts.len() - i,
    {
        assert(all.take(i + 1).drop_last() =~= all.take(i as int));
        if i > 0 {
            append(&mut out, separator);
        } else {
            assert(out@ =~= Seq::<char>::empty());
        }
        append(&mut out, parts[i].as_str());
        i = i + 1;
    }
    assert(all.take(parts.len() as int) =~= all);
    out
}

impl Error {
    /// The error of a chain of causes, from the outermost in.
    pub fn from_chain(causes: &Vec<String>) -> (r: Error)
        ensures
            r.0@ == joined(causes.deep_view(), CHAIN_SEPARATOR@),
    {
        Error(join(causes, CHAIN_SEPARATOR))
    }

    /// An error of one message, without context.
    pub fn message(text: &str) -> (r: Error)
        ensures
            r.0@ == text@,
    {
        Error(owned(text))
    }
}

/// The full path, in order: every phase once, at its rank, with its label.
pub fn path() -> (r: Vec<StepView>)
    ensures
        r.len() == Phase::ALL@.len(),
        forall|i: int|
            0 <= i < r.len() ==> {
                &&& (#[trigger] r@[i]).phase == Phase::ALL@[i]
                &&& r@[i].rank == i
                &&& r@[i].label@ == label_of(Phase::ALL@[i])
                &&& r@[i].label@.len() > 0
            },
{
    proof {
        lemma_all_ranks();
    }
    let all = Phase::ALL;
    let mut out: Vec<StepView> = Vec::new();
    let mut i: usize = 0;
    while i < 11
        invariant
            i <= 11,
            all@ == Phase::ALL@,
            Phase::ALL@.len() == 11,
            forall|k: int| 0 <= k < 11 ==> rank_of(#[trigger] Phase::ALL@[k]) == k,
            out.len() == i,
            forall|k: int|
                0 <= k < i ==> {
                    &&& (#[trigger] out@[k]).phase == Phase::ALL@[k]
                    &&& out@[k].rank == k
                    &&& out@[k].label@ == label_of(Phase::ALL@[k])
                    &&& out@[k].label@.len() > 0
                },
        decreases 11 - i,
    {
        let phase = all[i];
        let label = phase.label();
        let rank: usize = phase.rank();
        out.push(StepView { phase, label: owned(label), rank });
        i = i + 1;
    }
    out
}

/// How a game session ended.
#[derive(Debug, Clone, Copy, PartialEq, Eq, Structural)]
pub enum LaunchOutcome {
    /// The game quit normally.
    Normal,
    /// The game was stopped by a signal: its window was closed.
    Interrupted { signal: i32 },
    /// The game exited with a non-zero code.
    Failed { code: i32 },
}

/// What a game session left behind: how it ended, and the exceptions the
/// game reported, the first one first.
#[derive(Debug, Clone, PartialEq, Eq)]
pub struct LaunchReport {
    pub outcome: LaunchOutcome,
    pub errors: Vec<String>,
}

/// The sentence a session ends on. Closing the window is not a crash, and
/// neither is a signal: only a non-zero exit code is one.
pub open spec fn verdict_of(report: LaunchReport) -> Seq<char> {
    match report.outcome {
        LaunchOutcome::Normal => "Session ended."@,
        LaunchOutcome::Interrupted { .. } => "Game closed."@,
        LaunchOutcome::Failed { code } => "The game stopped on an error (code "@ + signed_dec(
            code as int,
        ) + ")"@ + if report.errors@.len() > 0 {
            " — "@ + report.errors@[0]@
        } else {
            Seq::empty()
        },
    }
}

/// What the game left behind when it stopped, said in one sentence.
pub fn verdict(report: &LaunchReport) -> (r: String)
    ensures
        r@ == verdict_of(*report),
{
    match report.outcome {
        LaunchOutcome::Normal => owned("Session ended."),
        LaunchOutcome::Interrupted { .. } => owned("Game closed."),
        LaunchOutcome::Failed { code } => {
            let mut said = owned("The game stopped on an error (code ");
            push_signed_decimal(&mut said, code);
            append(&mut said, ")");
            if report.errors.len() > 0 {
                append(&mut said, " — ");
                append(&mut said, report.errors[0].as_str());
            }
            said
        },
    }
}

/// A session that stopped on an error names the first exception the game
/// reported: the sentence is the signed code in brackets, then a dash and
/// that exception.
pub proof fn law_the_verdict_names_the_first_error(report: LaunchReport, code: i32)
    requires
        report.outcome == (LaunchOutcome::Failed { code }),
        report.errors@.len() > 0,
    ensures
        verdict_of(report) == "The game stopped on an error (code "@ + signed_dec(code as int)
            + ")"@ + " — "@ + report.errors@[0]@,
{
    assert(verdict_of(report) =~= "The game stopped on an error (code "@ + signed_dec(code as int)
            + ")"@ + " — "@ + report.errors@[0]@);
}

/// Only the first exception counts: two sessions that ended the same way,
/// on the same first exception, end on the same sentence, whatever the game
/// reported after it.
pub proof fn law_later_errors_change_nothing(a: LaunchReport, b: LaunchReport)
    requires
        a.outcome == b.outcome,
        a.errors@.len() > 0,
        b.errors@.len() > 0,
        a.errors@[0]@ == b.errors@[0]@,
    ensures
        verdict_of(a) == verdict_of(b),
{
}

/// Closing the window is not a crash, and neither is a signal: a normal
/// and an interrupted session each have their own sentence, whatever
/// exceptions were reported; a failure with no exception says its code and
/// nothing more.
pub proof fn law_only_a_nonzero_exit_is_a_crash(report: LaunchReport, code: i32, signal: i32)
    ensures
        report.outcome == LaunchOutcome::Normal ==> verdict_of(report) == "Session ended."@,
        report.outcome == (LaunchOutcome::Interrupted { signal }) ==> verdict_of(report) == "Game closed."@,
        report.outcome == (LaunchOutcome::Failed { code }) && report.errors@.len() == 0 ==> verdict_of(report)
            == "The game stopped on an error (code "@ + signed_dec(code as int) + ")"@,
{
    if report.outcome == (LaunchOutcome::Failed { code }) && report.errors@.len() == 0 {
        let expected = "The game stopped on an error (code "@ + signed_dec(code as int) + ")"@;
        assert(verdict_of(report) =~= expected + Seq::<char>::empty());
        assert(expected + Seq::<char>::empty() =~= expected);
    }
}

/// Whether an operation holds the instance: an installation and a game
/// session write into the same directories, and a button gets clicked
/// twice.
pub struct OperationLock {
    busy: bool,
}

/// What the refused second operation is told.
pub const ALREADY_IN_PROGRESS: &'static str = "an operation is already in progress";

impl View for OperationLock {
    type V = bool;

    closed spec fn view(&self) -> bool {
        self.busy
    }
}

impl OperationLock {
    /// Free.
    pub fn new() -> (r: OperationLock)
        ensures
            !r@,
    {
        OperationLock { busy: false }
    }

    /// Is an operation running?
    pub fn busy(&self) -> (r: bool)
        ensures
            r == self@,
    {
        self.busy
    }

    /// Takes the lock, or refuses with the error the window shows.
    pub fn reserve(&mut self) -> (r: Result<(), Error>)
        ensures
            final(self)@,
            r is Ok <==> !old(self)@,
            r matches Err(e) ==> e.0@ == ALREADY_IN_PROGRESS@,
    {
        if self.busy {
            Err(Error::message(ALREADY_IN_PROGRESS))
        } else {
            self.busy = true;
            Ok(())
        }
    }

    /// Gives the lock back, whichever way the operation ended.
    pub fn release(&mut self)
        ensures
            !final(self)@,
    {
        self.busy = false;
    }
}

} // verus!
