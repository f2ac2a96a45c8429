//! La partie en cours, et le moyen d'y mettre fin.

use vstd::prelude::*;
use crate::commandes::Erreur;
use crate::game_session::{running, stop_command, stop_order, GameSession, Platform};

verus! {

/// Ce qu'on répond quand il n'y a rien à arrêter.
pub const AUCUNE_PARTIE: &'static str = "aucune partie en cours";

/// Le jeu vient de démarrer.
pub fn demarree(partie: &mut GameSession, pid: u32)
    ensures
        final(partie)@ == pid,
{
    crate::game_session::started(partie, pid);
}

/// La partie est finie, de quelque façon que ce soit.
pub fn terminee(partie: &mut GameSession)
    ensures
        final(partie)@ == 0,
{
    crate::game_session::ended(partie);
}

/// Le numéro du jeu en cours, s'il y en a un.
pub fn en_cours(partie: &GameSession) -> (r: Option<u32>)
    ensures
        r == running(partie@),
{
    crate::game_session::running_pid(partie)
}

/// Comment arrêter un processus, selon le système.
pub fn ordre_d_arret(pid: u32, systeme: Platform) -> (r: (&'static str, Vec<String>))
    ensures
        (r.0@, r.1.deep_view()) == stop_command(pid, systeme),
{
    stop_order(pid, systeme)
}

/// Ce qu'arrêter le jeu revient à faire : l'ordre pour le processus en
/// cours, ou une erreur s'il n'y a pas de partie.
pub fn demande_d_arret(partie: &GameSession, systeme: Platform) -> (r: Result<
    (&'static str, Vec<String>),
    Erreur,
>)
    ensures
        match r {
            Ok((programme, arguments)) => partie@ != 0 && (programme@, arguments.deep_view())
                == stop_command(partie@, systeme),
            Err(e) => partie@ == 0 && e.0@ == AUCUNE_PARTIE@,
        },
{
    match en_cours(partie) {
        Some(pid) => Ok(ordre_d_arret(pid, systeme)),
        None => Err(Erreur::message(AUCUNE_PARTIE)),
    }
}

} // verus!
