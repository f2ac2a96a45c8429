//! La séquence, telle que la fenêtre la suit.

use vstd::prelude::*;

verus! {

/// L'événement qui porte un instantané d'avancement à la fenêtre.
pub const EVENEMENT_AVANCEMENT: &'static str = "cinematique://avancement";

/// La cadence d'émission, en millisecondes.
pub const CADENCE_MS: u64 = 200;

} // verus!
