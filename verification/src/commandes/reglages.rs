//! Ce que la section « Avancé » peut ouvrir.

use vstd::prelude::*;

verus! {

/// Les dossiers qu'on propose d'ouvrir : une liste fermée et non un chemin.
#[derive(Debug, Clone, Copy, PartialEq, Eq, Structural)]
pub enum Dossier {
    Donnees,
    Config,
    Journaux,
    Instance,
}

} // verus!
