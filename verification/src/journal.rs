//! Ce que le front dit au journal : le niveau qu'une ligne reçoit.

use vstd::prelude::*;
use crate::log::{is_named, level_named, Level};

verus! {

/// Ce que le front peut demander, et rien d'autre : un niveau inconnu vaut
/// `info` plutôt que de perdre la ligne.
pub fn niveau_de(brut: &str) -> (r: Level)
    ensures
        r == level_named(brut@),
{
    if is_named(brut, "error") {
        Level::Error
    } else if is_named(brut, "warn") {
        Level::Warn
    } else if is_named(brut, "debug") {
        Level::Debug
    } else if is_named(brut, "trace") {
        Level::Trace
    } else {
        Level::Info
    }
}

} // verus!
