//! Le passage de l'écran de démarrage à la fenêtre.
//!
//! Un plancher ([`DUREE_MINIMALE`]) sous lequel l'écran de démarrage
//! passerait trop vite pour être lu, et un plafond ([`DELAI_DE_GARDE`])
//! au-delà duquel la fenêtre est montrée sans attendre le front. Les durées
//! se comptent en nanosecondes, comme `Duration::as_nanos` les rend.

use vstd::prelude::*;
use crate::startup::{completion_steps, wait_left, Transition, WindowStep};

verus! {

/// Combien de temps l'écran de démarrage reste affiché AU MINIMUM : une
/// seconde et demie.
pub const DUREE_MINIMALE: u128 = 1_500_000_000;

/// Au bout de combien de temps on montre la fenêtre sans attendre le
/// front : dix secondes.
pub const DELAI_DE_GARDE: u128 = 10_000_000_000;

/// Ce qu'il reste à attendre avant d'avoir le droit de montrer la fenêtre.
pub fn reste_a_attendre(ecoule: u128) -> (r: u128)
    ensures
        r == wait_left(DUREE_MINIMALE, ecoule),
        ecoule < DUREE_MINIMALE ==> ecoule + r == DUREE_MINIMALE,
        ecoule >= DUREE_MINIMALE ==> r == 0,
{
    DUREE_MINIMALE.saturating_sub(ecoule)
}

/// Réserve le passage, ou dit qu'il a déjà eu lieu : le drapeau est pris
/// avant l'attente du plancher, pour que deux appelants arrivés pendant
/// cette attente ne montrent pas la fenêtre tous les deux.
pub fn reserver(passage: &mut Transition) -> (r: bool)
    ensures
        final(passage)@,
        r == !old(passage)@,
{
    passage.reserve()
}

/// Ce que fait le passage, dans l'ordre : la principale d'abord, l'écran de
/// démarrage ensuite, pour qu'aucun instant ne reste sans fenêtre visible.
pub fn etapes_du_passage() -> (r: Vec<WindowStep>)
    ensures
        r@ == completion_steps(false),
{
    let mut etapes: Vec<WindowStep> = Vec::new();
    etapes.push(WindowStep::ShowMain);
    etapes.push(WindowStep::FocusMain);
    etapes.push(WindowStep::CloseSplash);
    assert(etapes@ =~= completion_steps(false));
    etapes
}

/// Ce que le signal du front entraîne : rien si le passage est déjà fait,
/// sinon l'attente qui reste avant de l'accomplir.
pub fn au_signal_du_front(passage: &mut Transition, ecoule: u128) -> (r: Option<u128>)
    ensures
        final(passage)@,
        r == if old(passage)@ {
            None
        } else {
            Some(wait_left(DUREE_MINIMALE, ecoule))
        },
{
    if reserver(passage) {
        Some(reste_a_attendre(ecoule))
    } else {
        None
    }
}

/// Ce que l'échéance de la garde entraîne : accomplir le passage, sauf s'il
/// est déjà fait.
pub fn a_l_echeance_de_la_garde(passage: &mut Transition) -> (r: bool)
    ensures
        final(passage)@,
        r == !old(passage)@,
{
    reserver(passage)
}

/// Le plancher est tenu exactement quand le front est plus rapide, et rien
/// n'est ajouté quand il est plus lent ; le plancher reste sous le plafond.
pub proof fn loi_le_plancher_est_tenu_exactement(ecoule: u128)
    ensures
        ecoule < DUREE_MINIMALE ==> ecoule + wait_left(DUREE_MINIMALE, ecoule) == DUREE_MINIMALE,
        ecoule >= DUREE_MINIMALE ==> wait_left(DUREE_MINIMALE, ecoule) == 0,
        DUREE_MINIMALE < DELAI_DE_GARDE,
{
}

} // verus!
