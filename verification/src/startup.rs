//! The passage from the splash screen to the window.
//!
//! The main window loads the front before its first pixel; a second,
//! tiny window holds the screen meanwhile. The front alone knows when it
//! has rendered, and says so; two bounds frame that moment, both measured
//! from the instant the windows exist.
//!
//! A floor ([`MINIMUM_DURATION`]): below it the splash screen passes too
//! fast to be read. A ceiling ([`GUARD_DELAY`]): past it the main window is
//! shown without waiting for the front, which might never call.
//!
//! Durations are counted in nanoseconds, as `Duration::as_nanos` gives
//! them; the clock and the windows stay with the application.

use vstd::prelude::*;

verus! {

/// How long the splash screen stays displayed at minimum: two seconds.
pub const MINIMUM_DURATION: u128 = 2_000_000_000;

/// After how long the window is shown without waiting for the front: ten
/// seconds.
pub const GUARD_DELAY: u128 = 10_000_000_000;

/// What is left of `floor` once `elapsed` has passed, never below zero.
pub open spec fn wait_left(floor: u128, elapsed: u128) -> u128 {
    if elapsed < floor {
        (floor - elapsed) as u128
    } else {
        0
    }
}

/// How much longer to wait before being allowed to show the window.
pub fn remaining_wait(elapsed: u128) -> (r: u128)
    ensures
        r == wait_left(MINIMUM_DURATION, elapsed),
        elapsed < MINIMUM_DURATION ==> elapsed + r == MINIMUM_DURATION,
        elapsed >= MINIMUM_DURATION ==> r == 0,
{
    MINIMUM_DURATION.saturating_sub(elapsed)
}

/// Is the main window allowed to show? Not while the sign-in window has
/// taken over: it would open on top of it, on a page that lives elsewhere.
pub fn should_show_main(sign_in_in_progress: bool) -> (r: bool)
    ensures
        r == !sign_in_in_progress,
{
    !sign_in_in_progress
}

/// One thing done to the windows when the splash screen goes.
#[derive(Debug, Clone, Copy, PartialEq, Eq, Structural)]
pub enum WindowStep {
    /// Show the main window.
    ShowMain,
    /// Give it the focus.
    FocusMain,
    /// Close the splash screen.
    CloseSplash,
}

/// What completing the passage does, in order: the main window first and
/// the splash screen after, so that no instant is left without a visible
/// window; only the splash screen's closing while a sign-in is under way.
pub open spec fn completion_steps(sign_in_in_progress: bool) -> Seq<WindowStep> {
    if sign_in_in_progress {
        seq![WindowStep::CloseSplash]
    } else {
        seq![WindowStep::ShowMain, WindowStep::FocusMain, WindowStep::CloseSplash]
    }
}

/// The steps that complete the passage.
pub fn completion(sign_in_in_progress: bool) -> (r: Vec<WindowStep>)
    ensures
        r@ == completion_steps(sign_in_in_progress),
{
    let mut steps: Vec<WindowStep> = Vec::new();
    if should_show_main(sign_in_in_progress) {
        steps.push(WindowStep::ShowMain);
        steps.push(WindowStep::FocusMain);
    }
    steps.push(WindowStep::CloseSplash);
    assert(steps@ =~= completion_steps(sign_in_in_progress));
    steps
}

/// Whether the passage has been made; it is made once.
///
/// The guard and the front can arrive together, a slow front at exactly the
/// tenth second; the second of them must find the passage taken.
pub struct Transition {
    done: bool,
}

/// What reserving gives, and the flag it leaves: the passage to whoever
/// finds it free, and the flag set whatever happened.
pub open spec fn reservation(done: bool) -> (bool, bool) {
    (!done, true)
}

impl View for Transition {
    type V = bool;

    closed spec fn view(&self) -> bool {
        self.done
    }
}

impl Transition {
    /// Not made yet: otherwise the very first passage would be ignored and
    /// the window would never show.
    pub fn new() -> (r: Transition)
        ensures
            !r@,
    {
        Transition { done: false }
    }

    /// Has the passage been made?
    pub fn done(&self) -> (r: bool)
        ensures
            r == self@,
    {
        self.done
    }

    /// Reserves the passage, or says that it already happened.
    ///
    /// Taken before the floor's wait, not after: two callers arriving
    /// during that wait would otherwise both show the window.
    pub fn reserve(&mut self) -> (r: bool)
        ensures
            (r, final(self)@) == reservation(old(self)@),
    {
        let free = !self.done;
        self.done = true;
        free
    }
}

/// What the front's signal leads to: nothing if the passage was already
/// made, otherwise the wait that is left before completing it.
pub fn on_front_ready(transition: &mut Transition, elapsed: u128) -> (r: Option<u128>)
    ensures
        final(transition)@,
        r == if old(transition)@ {
            None
        } else {
            Some(wait_left(MINIMUM_DURATION, elapsed))
        },
{
    if transition.reserve() {
        Some(remaining_wait(elapsed))
    } else {
        None
    }
}

/// What the guard's delay leads to: completing the passage, unless it was
/// already made.
pub fn on_guard_elapsed(transition: &mut Transition) -> (r: bool)
    ensures
        final(transition)@,
        r == !old(transition)@,
{
    transition.reserve()
}

/// Of two arrivals, whatever their order, one at most makes the passage.
pub proof fn law_the_passage_is_made_once(done: bool)
    ensures
        !(reservation(done).0 && reservation(reservation(done).1).0),
        !reservation(reservation(done).1).0,
{
}

/// The splash screen holds exactly the floor when the front is faster, and
/// adds nothing when it is slower.
pub proof fn law_the_floor_is_held_exactly(elapsed: u128)
    ensures
        elapsed < MINIMUM_DURATION ==> elapsed + wait_left(MINIMUM_DURATION, elapsed)
            == MINIMUM_DURATION,
        elapsed >= MINIMUM_DURATION ==> wait_left(MINIMUM_DURATION, elapsed) == 0,
        MINIMUM_DURATION < GUARD_DELAY,
{
}

/// The main window never shows while the sign-in window has taken over,
/// and the splash screen always closes, last.
pub proof fn law_the_splash_always_closes_last(sign_in_in_progress: bool)
    ensures
        completion_steps(sign_in_in_progress).last() == WindowStep::CloseSplash,
        sign_in_in_progress ==> !completion_steps(sign_in_in_progress).contains(
            WindowStep::ShowMain,
        ),
{
    if sign_in_in_progress {
        assert(completion_steps(sign_in_in_progress)[0] != WindowStep::ShowMain);
    }
}

} // verus!
