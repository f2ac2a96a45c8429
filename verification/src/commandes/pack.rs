//! Le geste unique, et ce que la fenêtre en apprend.

use vstd::prelude::*;
use super::{verdict, verdict_de};
use crate::commands::LaunchReport;
use crate::commands::pack::{report_of, UpdateSummary};
use crate::text::owned;

verus! {

/// Ce qu'un geste a laissé : le même pour installer et pour jouer.
#[derive(Debug, Clone, PartialEq, Eq)]
pub struct CompteRendu {
    pub verdict: String,
    /// Une installation a-t-elle eu lieu ?
    pub rattrapee: bool,
    /// Les mods que la résolution n'a pas trouvés.
    pub introuvables: Vec<String>,
    /// Ce que l'installation a dévié du verrou publié.
    pub ecarts: Vec<String>,
    /// Le pack distant était injoignable.
    pub hors_ligne: bool,
    /// Ce que la purge a effacé, s'il y a eu purge.
    pub purge: Vec<String>,
}

/// Le verdict d'une installation qui a posé le pack.
pub const INSTALLE: &'static str = "Le pack est installé.";

/// Le verdict d'une installation qui n'avait rien à faire.
pub const DEJA_A_JOUR: &'static str = "Le pack était déjà à jour : rien à poser.";

/// Le verdict d'une partie qui n'a rien rapporté.
pub const PARTIE_TERMINEE: &'static str = "Partie terminée.";

/// Les champs d'un compte rendu, en une valeur.
pub open spec fn champs(r: CompteRendu) -> (Seq<char>, bool, Seq<String>, Seq<String>, bool, Seq<String>) {
    (r.verdict@, r.rattrapee, r.introuvables@, r.ecarts@, r.hors_ligne, r.purge@)
}

/// Le compte rendu d'un déroulement, avec le verdict qui va avec le geste.
pub fn compte_rendu(deroulement: UpdateSummary, verdict: String) -> (r: CompteRendu)
    ensures
        champs(r) == report_of(deroulement, verdict@),
{
    let rattrapee = deroulement.installation.is_some();
    let purge = match deroulement.installation {
        Some(p) => p,
        None => Vec::new(),
    };
    CompteRendu {
        verdict,
        rattrapee,
        introuvables: deroulement.missing,
        ecarts: deroulement.drifts,
        hors_ligne: deroulement.offline,
        purge,
    }
}

/// Ce que rend le geste d'installation.
pub fn installation(deroulement: UpdateSummary) -> (r: CompteRendu)
    ensures
        champs(r) == report_of(
            deroulement,
            if deroulement.installation is Some {
                INSTALLE@
            } else {
                DEJA_A_JOUR@
            },
        ),
{
    let verdict = if deroulement.installation.is_some() {
        owned(INSTALLE)
    } else {
        owned(DEJA_A_JOUR)
    };
    compte_rendu(deroulement, verdict)
}

/// Ce que rend le geste de jeu : le verdict de la partie elle-même.
pub fn partie(deroulement: UpdateSummary, rapport: &Option<LaunchReport>) -> (r: CompteRendu)
    ensures
        champs(r) == report_of(
            deroulement,
            match rapport {
                Some(s) => verdict_de(*s),
                None => PARTIE_TERMINEE@,
            },
        ),
{
    let dit = match rapport {
        Some(s) => verdict(s),
        None => owned(PARTIE_TERMINEE),
    };
    compte_rendu(deroulement, dit)
}

} // verus!
