//! The game session in progress, and the way to end it.
//!
//! `play` only returns once the session is over; a game frozen on a loading
//! screen would hold the launcher forever. So the game's process number is
//! kept, and the window can have it killed. A number rather than the
//! process handle: a number can be copied, and signaling a process needs
//! nothing else.

use vstd::prelude::*;
use crate::commands::Error;
use crate::text::{dec, owned, push_decimal};

verus! {

/// The running game's process number, or zero if there is none.
///
/// Zero as absence: no system gives process number zero to a program.
pub struct GameSession {
    pid: u32,
}

impl View for GameSession {
    type V = u32;

    closed spec fn view(&self) -> u32 {
        self.pid
    }
}

/// The process a session designates: none for zero.
pub open spec fn running(pid: u32) -> Option<u32> {
    if pid == 0 {
        None
    } else {
        Some(pid)
    }
}

/// The system the launcher runs on, as far as stopping a process goes.
#[derive(Debug, Clone, Copy, PartialEq, Eq, Structural)]
pub enum Platform {
    Windows,
    Unix,
}

/// What is said when there is nothing to stop.
pub const NO_SESSION: &'static str = "no game session in progress";

impl GameSession {
    /// No game running.
    pub fn new() -> (r: GameSession)
        ensures
            r@ == 0,
    {
        GameSession { pid: 0 }
    }
}

/// The game just started.
pub fn started(session: &mut GameSession, pid: u32)
    ensures
        final(session)@ == pid,
{
    session.pid = pid;
}

/// The session is over, whichever way it happened: a number left behind
/// would be reused by the system for another program, and the stop button
/// would kill that one.
pub fn ended(session: &mut GameSession)
    ensures
        final(session)@ == 0,
{
    session.pid = 0;
}

/// The running game's process number, if there is one.
pub fn running_pid(session: &GameSession) -> (r: Option<u32>)
    ensures
        r == running(session@),
{
    if session.pid == 0 {
        None
    } else {
        Some(session.pid)
    }
}

/// The command that stops a process on a system: without ceremony, since
/// the gesture exists for a game that no longer responds. `-KILL` and not
/// `-TERM`, whose handler a frozen JVM never runs; on Windows, `/T` takes
/// down the child processes too.
pub open spec fn stop_command(pid: u32, platform: Platform) -> (Seq<char>, Seq<Seq<char>>) {
    match platform {
        Platform::Windows => ("taskkill"@, seq!["/PID"@, dec(pid as nat), "/T"@, "/F"@]),
        Platform::Unix => ("kill"@, seq!["-KILL"@, dec(pid as nat)]),
    }
}

/// The decimal writing of a process number.
fn pid_text(pid: u32) -> (r: String)
    ensures
        r@ == dec(pid as nat),
{
    let mut t = String::new();
    push_decimal(&mut t, pid as u64);
    assert(t@ =~= dec(pid as nat));
    t
}

/// How to stop a process, depending on the system.
pub fn stop_order(pid: u32, platform: Platform) -> (r: (&'static str, Vec<String>))
    ensures
        (r.0@, r.1.deep_view()) == stop_command(pid, platform),
{
    let mut args: Vec<String> = Vec::new();
    match platform {
        Platform::Windows => {
            args.push(owned("/PID"));
            args.push(pid_text(pid));
            args.push(owned("/T"));
            args.push(owned("/F"));
            assert(args.deep_view() =~= stop_command(pid, platform).1);
            ("taskkill", args)
        },
        Platform::Unix => {
            args.push(owned("-KILL"));
            args.push(pid_text(pid));
            assert(args.deep_view() =~= stop_command(pid, platform).1);
            ("kill", args)
        },
    }
}

/// What stopping the game comes to: the order for the running process, or
/// an error when no session is running.
pub fn stop_request(session: &GameSession, platform: Platform) -> (r: Result<
    (&'static str, Vec<String>),
    Error,
>)
    ensures
        match r {
            Ok((program, args)) => session@ != 0 && (program@, args.deep_view()) == stop_command(
                session@,
                platform,
            ),
            Err(e) => session@ == 0 && e.0@ == NO_SESSION@,
        },
{
    match running_pid(session) {
        Some(pid) => Ok(stop_order(pid, platform)),
        None => Err(Error::message(NO_SESSION)),
    }
}

/// A number set is read back until the session ends; after that, none.
pub proof fn law_the_number_is_read_back(pid: u32)
    ensures
        pid != 0 ==> running(pid) == Some(pid),
        running(0) is None,
{
}

} // verus!
