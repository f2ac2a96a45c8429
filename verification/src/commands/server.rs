//! Whether the server a pack declares answers, and to how many players.
//!
//! Absent a declared port, the probe goes straight to Minecraft's default
//! one; it does no SRV resolution.

use vstd::prelude::*;

verus! {

/// Minecraft's default port, used when the manifest declares none.
pub const DEFAULT_PORT: u16 = 25565;

/// How long the panel waits for an answer, in milliseconds.
pub const TIMEOUT_MS: u64 = 2000;

/// What the panel shows of the server.
#[derive(Debug, Clone, Copy, PartialEq, Eq, Structural)]
pub enum ServerState {
    Online,
    Offline,
    /// The installed pack declares no server for this environment.
    Undeclared,
}

/// The server panel's whole contract with the front end.
#[derive(Debug, Clone, PartialEq, Eq)]
pub struct ServerStatus {
    pub state: ServerState,
    /// Empty when undeclared: there is nothing to show.
    pub host: String,
    pub players: Option<u32>,
    pub slots: Option<u32>,
    pub version: Option<String>,
}

/// What a successful probe read from the server.
#[derive(Debug, Clone, PartialEq, Eq)]
pub struct PingStatus {
    pub online: Option<u32>,
    pub max: Option<u32>,
    pub version: Option<String>,
}

impl ServerStatus {
    /// No server declared.
    pub fn undeclared() -> (r: ServerStatus)
        ensures
            r.state == ServerState::Undeclared,
            r.host@.len() == 0,
            r.players is None && r.slots is None && r.version is None,
    {
        ServerStatus {
            state: ServerState::Undeclared,
            host: String::new(),
            players: None,
            slots: None,
            version: None,
        }
    }

    /// A declared server that did not answer.
    pub fn offline(host: String) -> (r: ServerStatus)
        ensures
            r.state == ServerState::Offline,
            r.host == host,
            r.players is None && r.slots is None && r.version is None,
    {
        ServerStatus { state: ServerState::Offline, host, players: None, slots: None, version: None }
    }
}

/// The port to probe: the declared one, or the default.
pub fn port_to_probe(declared: Option<u16>) -> (r: u16)
    ensures
        r == match declared {
            Some(p) => p,
            None => DEFAULT_PORT,
        },
{
    match declared {
        Some(p) => p,
        None => DEFAULT_PORT,
    }
}

/// Turns a probe's outcome into what the panel shows: online with the
/// server's numbers, or offline with none. An unreachable server is what a
/// server being down looks like, not an error.
pub fn from_ping(host: String, outcome: Option<PingStatus>) -> (r: ServerStatus)
    ensures
        r.host == host,
        match outcome {
            Some(s) => r.state == ServerState::Online && r.players == s.online && r.slots == s.max
                && r.version == s.version,
            None => r.state == ServerState::Offline && r.players is None && r.slots is None
                && r.version is None,
        },
{
    match outcome {
        Some(status) => ServerStatus {
            state: ServerState::Online,
            host,
            players: status.online,
            slots: status.max,
            version: status.version,
        },
        None => ServerStatus::offline(host),
    }
}

} // verus!
