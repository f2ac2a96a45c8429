//! Ce que l'interface a le droit d'appeler, pour ce qui s'y décide : le
//! chemin, le compte, les erreurs en une chaîne lisible, et la phrase sur
//! laquelle une partie se termine.

pub mod pack;
pub mod reglages;

use vstd::prelude::*;
use crate::commands::{join, joined, CHAIN_SEPARATOR, LaunchOutcome, LaunchReport};
use crate::phase::{label_of, lemma_all_ranks, rank_of, Phase};
use crate::text::{append, owned, push_signed_decimal, signed_dec};

verus! {

/// L'événement qui porte le code d'appareil à la fenêtre.
pub const EVENEMENT_CODE: &'static str = "auth://code";

/// Le compte connecté, tel que la fenêtre l'affiche.
#[derive(Debug, Clone, PartialEq, Eq)]
pub struct Compte {
    pub pseudo: String,
    pub uuid: String,
    /// Faux quand le compte ne possède pas Minecraft Java Edition.
    pub possede_le_jeu: bool,
}

/// Ce que le joueur doit saisir côté Microsoft.
#[derive(Debug, Clone, PartialEq, Eq)]
pub struct CodeAppareil {
    pub code: String,
    /// La page où l'on saisit le code à la main.
    pub url: String,
    /// La même page, code prérempli : celle qu'on ouvre.
    pub url_directe: String,
}

/// Une erreur, telle qu'elle traverse le pont : toute sa chaîne de causes.
#[derive(Debug, Clone, PartialEq, Eq)]
pub struct Erreur(pub String);

/// Une phase du chemin, telle que la fenêtre la dessine.
#[derive(Debug, Clone, PartialEq, Eq)]
pub struct EtapeVue {
    pub phase: Phase,
    pub libelle: String,
    pub rang: usize,
}

impl Erreur {
    /// L'erreur d'une chaîne de causes, de la plus extérieure à la plus
    /// intérieure.
    pub fn depuis_chaine(causes: &Vec<String>) -> (r: Erreur)
        ensures
            r.0@ == joined(causes.deep_view(), CHAIN_SEPARATOR@),
    {
        Erreur(join(causes, CHAIN_SEPARATOR))
    }

    /// Une erreur d'un seul message.
    pub fn message(texte: &str) -> (r: Erreur)
        ensures
            r.0@ == texte@,
    {
        Erreur(owned(texte))
    }
}

/// Le chemin complet, dans l'ordre : chaque phase une fois, à son rang,
/// avec son libellé.
pub fn chemin() -> (r: Vec<EtapeVue>)
    ensures
        r.len() == Phase::ALL@.len(),
        forall|i: int|
            0 <= i < r.len() ==> {
                &&& (#[trigger] r@[i]).phase == Phase::ALL@[i]
                &&& r@[i].rang == i
                &&& r@[i].libelle@ == label_of(Phase::ALL@[i])
            },
{
    proof {
        lemma_all_ranks();
    }
    let toutes = Phase::ALL;
    let mut etapes: Vec<EtapeVue> = Vec::new();
    let mut i: usize = 0;
    while i < 11
        invariant
            i <= 11,
            toutes@ == Phase::ALL@,
            Phase::ALL@.len() == 11,
            forall|k: int| 0 <= k < 11 ==> rank_of(#[trigger] Phase::ALL@[k]) == k,
            etapes.len() == i,
            forall|k: int|
                0 <= k < i ==> {
                    &&& (#[trigger] etapes@[k]).phase == Phase::ALL@[k]
                    &&& etapes@[k].rang == k
                    &&& etapes@[k].libelle@ == label_of(Phase::ALL@[k])
                },
        decreases 11 - i,
    {
        let phase = toutes[i];
        etapes.push(EtapeVue { phase, libelle: owned(phase.label()), rang: phase.rank() });
        i = i + 1;
    }
    etapes
}

/// La phrase sur laquelle une partie se termine. Fermer la fenêtre n'est
/// pas un plantage, un signal non plus : seul un code de sortie non nul en
/// est un.
pub open spec fn verdict_de(rapport: LaunchReport) -> Seq<char> {
    match rapport.outcome {
        LaunchOutcome::Normal => "Partie terminée."@,
        LaunchOutcome::Interrupted { .. } => "Jeu fermé."@,
        LaunchOutcome::Failed { code } => "Le jeu s'est arrêté sur une erreur (code "@
            + signed_dec(code as int) + ")"@ + if rapport.errors@.len() > 0 {
            " — "@ + rapport.errors@[0]@
        } else {
            Seq::empty()
        },
    }
}

/// Ce que le jeu a laissé en s'arrêtant, dit en une phrase.
pub fn verdict(rapport: &LaunchReport) -> (r: String)
    ensures
        r@ == verdict_de(*rapport),
{
    match rapport.outcome {
        LaunchOutcome::Normal => owned("Partie terminée."),
        LaunchOutcome::Interrupted { .. } => owned("Jeu fermé."),
        LaunchOutcome::Failed { code } => {
            let mut dit = owned("Le jeu s'est arrêté sur une erreur (code ");
            push_signed_decimal(&mut dit, code);
            append(&mut dit, ")");
            if rapport.errors.len() > 0 {
                append(&mut dit, " — ");
                append(&mut dit, rapport.errors[0].as_str());
            }
            dit
        },
    }
}

/// Un arrêt sur erreur cite la première exception que le jeu a signalée :
/// la phrase est le code signé entre parenthèses, puis un tiret et cette
/// exception-là.
pub proof fn loi_le_verdict_cite_la_premiere_erreur(rapport: LaunchReport, code: i32)
    requires
        rapport.outcome == (LaunchOutcome::Failed { code }),
        rapport.errors@.len() > 0,
    ensures
        verdict_de(rapport) == "Le jeu s'est arrêté sur une erreur (code "@ + signed_dec(code as int)
            + ")"@ + " — "@ + rapport.errors@[0]@,
{
    assert(verdict_de(rapport) =~= "Le jeu s'est arrêté sur une erreur (code "@ + signed_dec(code as int)
            + ")"@ + " — "@ + rapport.errors@[0]@);
}

/// Seule la première exception compte : deux parties arrêtées de la même
/// façon, sur la même première exception, finissent sur la même phrase,
/// quoi que le jeu ait signalé ensuite.
pub proof fn loi_les_erreurs_suivantes_ne_changent_rien(a: LaunchReport, b: LaunchReport)
    requires
        a.outcome == b.outcome,
        a.errors@.len() > 0,
        b.errors@.len() > 0,
        a.errors@[0]@ == b.errors@[0]@,
    ensures
        verdict_de(a) == verdict_de(b),
{
}

/// Fermer la fenêtre n'est pas un plantage, un signal non plus : une
/// partie normale et une partie interrompue ont chacune leur phrase, quelles
/// que soient les exceptions relevées ; un arrêt sur erreur sans exception
/// dit son code et rien de plus.
pub proof fn loi_seul_un_code_non_nul_est_un_plantage(rapport: LaunchReport, code: i32, signal: i32)
    ensures
        rapport.outcome == LaunchOutcome::Normal ==> verdict_de(rapport) == "Partie terminée."@,
        rapport.outcome == (LaunchOutcome::Interrupted { signal }) ==> verdict_de(rapport) == "Jeu fermé."@,
        rapport.outcome == (LaunchOutcome::Failed { code }) && rapport.errors@.len() == 0 ==> verdict_de(rapport)
            == "Le jeu s'est arrêté sur une erreur (code "@ + signed_dec(code as int) + ")"@,
{
    if rapport.outcome == (LaunchOutcome::Failed { code }) && rapport.errors@.len() == 0 {
        let attendu = "Le jeu s'est arrêté sur une erreur (code "@ + signed_dec(code as int) + ")"@;
        assert(verdict_de(rapport) =~= attendu + Seq::<char>::empty());
        assert(attendu + Seq::<char>::empty() =~= attendu);
    }
}

/// Une opération tient-elle l'instance ? Une installation et une partie
/// écrivent dans les mêmes dossiers, et un bouton se clique deux fois.
pub struct Etat {
    en_cours: bool,
}

/// Ce qu'on répond à la seconde opération.
pub const DEJA_EN_COURS: &'static str = "une opération est déjà en cours";

impl View for Etat {
    type V = bool;

    closed spec fn view(&self) -> bool {
        self.en_cours
    }
}

impl Etat {
    /// Libre.
    pub fn new() -> (r: Etat)
        ensures
            !r@,
    {
        Etat { en_cours: false }
    }

    /// Prend le jeton, ou refuse avec l'erreur que la fenêtre affiche.
    pub fn reserver(&mut self) -> (r: Result<(), Erreur>)
        ensures
            final(self)@,
            r is Ok <==> !old(self)@,
            r matches Err(e) ==> e.0@ == DEJA_EN_COURS@,
    {
        if self.en_cours {
            Err(Erreur::message(DEJA_EN_COURS))
        } else {
            self.en_cours = true;
            Ok(())
        }
    }

    /// Rend le jeton, quelle que soit la façon dont l'opération a fini.
    pub fn liberer(&mut self)
        ensures
            !final(self)@,
    {
        self.en_cours = false;
    }
}

} // verus!
