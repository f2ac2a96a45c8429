//! What the "Advanced" section may open.

use vstd::prelude::*;

verus! {

/// The folders offered for opening: a closed list and not a path, since a
/// command that accepted a path from the page would open anything.
#[derive(Debug, Clone, Copy, PartialEq, Eq, Structural)]
pub enum Folder {
    Data,
    Config,
    Logs,
    Instance,
}

} // verus!
