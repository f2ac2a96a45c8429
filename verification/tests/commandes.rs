use mc_app::commandes::pack::{installation, partie};
use mc_app::commandes::{chemin, verdict, Erreur, Etat, EVENEMENT_CODE};
use mc_app::commands::pack::UpdateSummary;
use mc_app::commands::{LaunchOutcome, LaunchReport};
use mc_app::phase::Phase;

#[test]
fn une_erreur_garde_toute_sa_chaine() {
    let erreur = Erreur::depuis_chaine(&vec![
        "connexion Microsoft".to_string(),
        "le code a expiré".to_string(),
    ]);
    assert_eq!(erreur, Erreur("connexion Microsoft : le code a expiré".to_string()));
    assert_eq!(
        Erreur::depuis_chaine(&vec!["trousseau verrouillé".to_string()]),
        Erreur("trousseau verrouillé".to_string())
    );
}

#[test]
fn le_chemin_est_complet_et_ordonne() {
    let chemin = chemin();
    assert_eq!(chemin.len(), Phase::ALL.len());
    let rangs: Vec<usize> = chemin.iter().map(|etape| etape.rang).collect();
    assert_eq!(rangs, (0..Phase::ALL.len()).collect::<Vec<_>>());
}

#[test]
fn fermer_le_jeu_n_est_pas_un_plantage() {
    let normal = LaunchReport { outcome: LaunchOutcome::Normal, errors: Vec::new() };
    assert_eq!(verdict(&normal), "Partie terminée.");
    let ferme = LaunchReport {
        outcome: LaunchOutcome::Interrupted { signal: 15 },
        errors: Vec::new(),
    };
    assert_eq!(verdict(&ferme), "Jeu fermé.");
    let plante = LaunchReport {
        outcome: LaunchOutcome::Failed { code: 1 },
        errors: vec!["java.lang.Error".to_string()],
    };
    assert_eq!(
        verdict(&plante),
        "Le jeu s'est arrêté sur une erreur (code 1) — java.lang.Error"
    );
}

#[test]
fn une_seconde_operation_est_refusee() {
    let mut etat = Etat::new();
    assert!(etat.reserver().is_ok());
    assert_eq!(
        etat.reserver(),
        Err(Erreur("une opération est déjà en cours".to_string()))
    );
    etat.liberer();
    assert!(etat.reserver().is_ok());
}

#[test]
fn le_compte_rendu_dit_ce_qui_a_ete_pose() {
    let deroulement = UpdateSummary {
        installation: None,
        missing: Vec::new(),
        drifts: vec!["jei".to_string()],
        offline: true,
    };
    let rendu = installation(deroulement.clone());
    assert_eq!(rendu.verdict, "Le pack était déjà à jour : rien à poser.");
    assert!(rendu.hors_ligne);
    assert_eq!(rendu.ecarts, vec!["jei".to_string()]);
    assert_eq!(partie(deroulement, &None).verdict, "Partie terminée.");
}

#[test]
fn l_evenement_du_code_ne_bouge_pas() {
    assert_eq!(EVENEMENT_CODE, "auth://code");
}
