//! Sous quel nom le launcher se présente.
//!
//! Le nom se fixe quand on fabrique le binaire ; la compilation le passe en
//! `configure`, et un nom absent ou vide retombe sur « samflix-mc ».

use vstd::prelude::*;
use crate::brand::{ascii_seal_of, chosen_name, is_ascii_text, seal, seal_of};
use crate::text::owned;

verus! {

/// Ce que le launcher affiche de lui-même.
#[derive(Debug, Clone, PartialEq, Eq)]
pub struct Marque {
    /// Le nom complet, en titre de fenêtre et en en-tête.
    pub nom: String,
    /// Deux lettres pour le sceau rond.
    pub sceau: String,
}

/// Le nom sur lequel on retombe.
pub const NOM_PAR_DEFAUT: &'static str = "samflix-mc";

/// Le nom retenu : `configure`, sauf s'il est absent ou vide.
pub fn nom(configure: Option<&'static str>) -> (r: &'static str)
    ensures
        r@ == chosen_name(configure, NOM_PAR_DEFAUT@),
{
    match configure {
        Some(n) => if n.is_empty() {
            NOM_PAR_DEFAUT
        } else {
            n
        },
        None => NOM_PAR_DEFAUT,
    }
}

/// Les deux lettres du sceau, tirées du nom.
pub fn sceau(nom: &str) -> (r: String)
    ensures
        r@ == seal_of(nom@),
        r@.len() > 0,
        is_ascii_text(nom@) ==> r@ == ascii_seal_of(nom@),
{
    seal(nom)
}

impl Marque {
    /// La marque de ce binaire, d'après le nom qu'il a reçu.
    pub fn courante(configure: Option<&'static str>) -> (r: Marque)
        ensures
            r.nom@ == chosen_name(configure, NOM_PAR_DEFAUT@),
            r.sceau@ == seal_of(r.nom@),
    {
        let nom = nom(configure);
        Marque { nom: owned(nom), sceau: sceau(nom) }
    }
}

} // verus!
