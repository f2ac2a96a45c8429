//! La fenêtre de connexion : à part de la principale, ouverte quand il n'y
//! a pas de session, refermée quand la session s'ouvre.

use vstd::prelude::*;

verus! {

/// L'étiquette de la fenêtre, celle que la capacité déclare.
pub const ETIQUETTE: &'static str = "connexion";

/// La route que le routeur du front sert.
pub const ROUTE: &'static str = "/connexion";

/// La largeur de la fenêtre, en pixels logiques.
pub const LARGEUR: u32 = 440;

/// Sa hauteur.
pub const HAUTEUR: u32 = 520;

/// L'événement par lequel la principale apprend que la session est ouverte.
pub const EVENEMENT_SESSION: &'static str = "session-ouverte";

/// Une connexion est-elle en cours ?
///
/// Fermer la fenêtre de connexion sans session, c'est quitter le launcher :
/// la principale est cachée, et rien d'autre ne permettrait d'en sortir.
pub struct Connexion {
    en_cours: bool,
}

impl View for Connexion {
    type V = bool;

    closed spec fn view(&self) -> bool {
        self.en_cours
    }
}

impl Connexion {
    /// Au repos : aucune connexion en cours.
    pub fn new() -> (r: Connexion)
        ensures
            !r@,
    {
        Connexion { en_cours: false }
    }

    /// La fenêtre de connexion s'ouvre.
    pub fn ouverte(&mut self)
        ensures
            final(self)@,
    {
        self.en_cours = true;
    }

    /// La session s'est ouverte.
    pub fn reussie(&mut self)
        ensures
            !final(self)@,
    {
        self.en_cours = false;
    }
}

/// Une connexion est-elle en cours ?
pub fn connexion_en_cours(connexion: &Connexion) -> (r: bool)
    ensures
        r == connexion@,
{
    connexion.en_cours
}

/// La fenêtre de connexion détruite : le launcher s'arrête-t-il ? Oui si la
/// connexion n'avait pas abouti.
pub fn quitter_a_la_fermeture(connexion: &Connexion) -> (r: bool)
    ensures
        r == connexion@,
{
    connexion_en_cours(connexion)
}

} // verus!
