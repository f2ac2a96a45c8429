//! The sequence, as the window follows it: what the installer reports goes
//! into the tracker, and the tracker is sent to the window at a steady
//! cadence.

use vstd::prelude::*;
use crate::game_session::{started, GameSession};
use crate::phase::{phase_of_step, Phase, Step};
use crate::text::{chars_of, string_of, trim};
use crate::tracker::{Tracker, TrackerState};

verus! {

/// The event that carries a progress snapshot to the window.
pub const EVENT_PROGRESS: &'static str = "cinematic://progress";

/// How often a snapshot is sent, in milliseconds: five times a second,
/// readable without drowning the bridge.
pub const CADENCE_MS: u64 = 200;

/// An installation step starts: its phase starts working.
pub fn report_step(tracker: &mut Tracker, step: Step)
    ensures
        final(tracker)@ == (TrackerState { phase: phase_of_step(step), done: false, ..old(tracker)@ }),
{
    tracker.phase(Phase::from_step(step));
}

/// The installer's note, without the indentation it carries for a
/// terminal: the window places it in its own template.
pub fn report_note(tracker: &mut Tracker, text: &str)
    ensures
        final(tracker)@ == (TrackerState { note: Some(trim(text@)), ..old(tracker)@ }),
{
    let trimmed = string_of(&crate::text::trimmed(&chars_of(text)));
    tracker.note(trimmed.as_str());
}

/// The game is running: its number is kept for the stop button, and the
/// path moves to the launch, which an installation step never reaches.
pub fn report_game_session_started(tracker: &mut Tracker, session: &mut GameSession, pid: u32)
    ensures
        final(session)@ == pid,
        final(tracker)@ == (TrackerState { phase: Phase::Launch, done: false, ..old(tracker)@ }),
{
    started(session, pid);
    tracker.phase(Phase::Launch);
}

/// The resolution the game is given: the player's size in windowed mode,
/// none otherwise, where the game sizes its own window.
pub fn resolution_for(windowed: bool, width: u32, height: u32) -> (r: Option<(u32, u32)>)
    ensures
        r == if windowed {
            Some((width, height))
        } else {
            None::<(u32, u32)>
        },
{
    if windowed {
        Some((width, height))
    } else {
        None
    }
}

} // verus!
