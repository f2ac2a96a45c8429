use std::time::Duration;

use mc_app::demarrage::{
    a_l_echeance_de_la_garde, au_signal_du_front, etapes_du_passage, reserver, reste_a_attendre,
    DELAI_DE_GARDE, DUREE_MINIMALE,
};
use mc_app::startup::{Transition, WindowStep};

fn ns(d: Duration) -> u128 {
    d.as_nanos()
}

#[test]
fn un_front_rapide_est_retenu_du_temps_qui_manque() {
    assert_eq!(
        reste_a_attendre(ns(Duration::from_millis(600))),
        ns(Duration::from_millis(900))
    );
    assert_eq!(
        reste_a_attendre(ns(Duration::from_millis(100))),
        ns(Duration::from_millis(1400))
    );
}

#[test]
fn un_front_lent_n_attend_pas() {
    assert_eq!(reste_a_attendre(DUREE_MINIMALE), 0);
    assert_eq!(reste_a_attendre(ns(Duration::from_secs(3))), 0);
    assert_eq!(reste_a_attendre(ns(Duration::from_secs(600))), 0);
}

#[test]
fn a_la_borne_exacte_et_autour() {
    assert_eq!(
        reste_a_attendre(DUREE_MINIMALE - ns(Duration::from_millis(1))),
        ns(Duration::from_millis(1))
    );
    assert_eq!(reste_a_attendre(DUREE_MINIMALE), 0);
    assert_eq!(reste_a_attendre(DUREE_MINIMALE + ns(Duration::from_millis(1))), 0);
}

#[test]
fn le_plancher_reste_sous_le_plafond() {
    assert!(
        DUREE_MINIMALE < DELAI_DE_GARDE,
        "le plancher de l'écran de démarrage dépasse le délai de garde"
    );
}

#[test]
fn le_plancher_est_borne_des_deux_cotes() {
    assert!(
        DUREE_MINIMALE >= ns(Duration::from_millis(800)),
        "trop court : l'écran repasserait pour un clignotement"
    );
    assert!(
        DUREE_MINIMALE <= ns(Duration::from_secs(3)),
        "trop long : on ferait attendre pour le plaisir de faire attendre"
    );
}

#[test]
fn le_delai_de_garde_est_borne_des_deux_cotes() {
    assert!(
        DELAI_DE_GARDE >= ns(Duration::from_secs(5)),
        "trop court : un premier lancement sur disque lent serait coupé"
    );
    assert!(
        DELAI_DE_GARDE <= ns(Duration::from_secs(20)),
        "trop long : personne ne regarde un écran figé vingt secondes"
    );
}

#[test]
fn le_passage_n_est_pas_fait_au_depart() {
    assert!(!Transition::new().done());
}

#[test]
fn le_passage_ne_se_fait_qu_une_fois() {
    let mut premier = Transition::new();
    assert!(reserver(&mut premier));
    assert!(!reserver(&mut premier));

    let mut passage = Transition::new();
    assert!(a_l_echeance_de_la_garde(&mut passage));
    assert_eq!(au_signal_du_front(&mut passage, 0), None);
    assert_eq!(
        etapes_du_passage(),
        vec![WindowStep::ShowMain, WindowStep::FocusMain, WindowStep::CloseSplash]
    );
}
