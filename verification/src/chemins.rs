//! Les emplacements que le framework connaît, imposés à tout le processus,
//! et ce qu'on dit quand l'environnement aurait rangé les données ailleurs.

use vstd::prelude::*;
use crate::paths::{opt_view, same_directory, same_path};
use crate::text::{append, owned};

verus! {

/// Ce qui suit la divergence quand on la journalise.
pub const FIN_DE_DIVERGENCE: &'static str = " — les deux résolveurs ne coïncident pas ; les crates suivent Tauri";

/// La divergence entre l'endroit où le framework range les données et
/// celui que l'environnement indique.
pub open spec fn texte_de_divergence(voulu: Seq<char>, secours: Seq<char>) -> Seq<char> {
    "Tauri range les données sous "@ + voulu + " là où l'environnement dit "@ + secours
}

/// Dit où les deux résolveurs rangent les données.
pub fn divergence(voulu: &str, secours: &str) -> (r: String)
    ensures
        r@ == texte_de_divergence(voulu@, secours@),
{
    let mut t = owned("Tauri range les données sous ");
    append(&mut t, voulu);
    append(&mut t, " là où l'environnement dit ");
    append(&mut t, secours);
    t
}

/// Ce que la pose constate : la divergence, quand les deux répertoires de
/// données ne sont pas le même, et rien sinon.
pub open spec fn divergence_de(voulu: Seq<char>, secours: Seq<char>) -> Option<Seq<char>> {
    if same_directory(voulu, secours) {
        None
    } else {
        Some(texte_de_divergence(voulu, secours))
    }
}

/// Ce que la pose constate des deux répertoires de données.
pub fn divergence_constatee(voulu: &str, secours: &str) -> (r: Option<String>)
    ensures
        match r {
            Some(m) => divergence_de(voulu@, secours@) == Some(m@),
            None => divergence_de(voulu@, secours@) is None,
        },
{
    if same_path(voulu, secours) {
        None
    } else {
        Some(divergence(voulu, secours))
    }
}

/// La ligne à journaliser une fois le journal ouvert, si la pose a constaté
/// une divergence.
pub fn journaliser_la_divergence(constatee: &Option<String>) -> (r: Option<String>)
    ensures
        match opt_view(*constatee) {
            Some(m) => r matches Some(ligne) && ligne@ == m + FIN_DE_DIVERGENCE@,
            None => r is None,
        },
{
    match constatee {
        Some(m) => {
            let mut ligne = owned(m.as_str());
            append(&mut ligne, FIN_DE_DIVERGENCE);
            Some(ligne)
        },
        None => None,
    }
}

} // verus!
