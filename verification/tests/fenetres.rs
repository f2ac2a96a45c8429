use mc_app::fenetres::{
    connexion_en_cours, quitter_a_la_fermeture, Connexion, ETIQUETTE, EVENEMENT_SESSION, HAUTEUR,
    LARGEUR, ROUTE,
};

#[test]
fn la_fenetre_a_les_dimensions_du_design_system() {
    assert_eq!((LARGEUR as f64, HAUTEUR as f64), (440.0, 520.0));
}

#[test]
fn l_etiquette_est_celle_que_la_capacite_declare() {
    assert_eq!(ETIQUETTE, "connexion");
}

#[test]
fn la_route_est_celle_du_routeur() {
    assert_eq!(ROUTE, "/connexion");
    assert!(!ROUTE.ends_with(".html"));
}

#[test]
fn au_repos_aucune_connexion_n_est_en_cours() {
    assert!(!connexion_en_cours(&Connexion::new()));
}

#[test]
fn l_evenement_de_session_porte_le_nom_que_le_front_ecoute() {
    assert_eq!(EVENEMENT_SESSION, "session-ouverte");
}

#[test]
fn fermer_la_connexion_sans_session_arrete_le_launcher() {
    let mut connexion = Connexion::new();
    connexion.ouverte();
    assert!(connexion_en_cours(&connexion));
    assert!(quitter_a_la_fermeture(&connexion));
    connexion.reussie();
    assert!(!quitter_a_la_fermeture(&connexion));
}
