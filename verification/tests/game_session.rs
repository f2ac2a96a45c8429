use mc_app::commandes::Erreur;
use mc_app::commands::Error;
use mc_app::game_session::{ended, running_pid, started, stop_order, stop_request, GameSession, Platform};
use mc_app::partie::{demande_d_arret, demarree, en_cours, ordre_d_arret, terminee};

#[test]
fn the_number_is_set_and_read_back() {
    let mut session = GameSession::new();
    ended(&mut session);
    assert_eq!(running_pid(&session), None);

    started(&mut session, 4242);
    assert_eq!(running_pid(&session), Some(4242));

    ended(&mut session);
    assert_eq!(running_pid(&session), None);
}

#[test]
fn the_stop_order_is_without_ceremony() {
    let (program, args) = stop_order(1234, Platform::Windows);
    assert_eq!(program, "taskkill");
    assert!(args.contains(&"/F".to_string()));
    assert!(args.contains(&"/T".to_string()));
    assert!(args.contains(&"1234".to_string()));

    let (program, args) = stop_order(1234, Platform::Unix);
    assert_eq!(program, "kill");
    assert_eq!(args, vec!["-KILL".to_string(), "1234".to_string()]);
    assert!(args.contains(&"1234".to_string()));
}

#[test]
fn stopping_without_a_session_is_refused() {
    let mut session = GameSession::new();
    assert_eq!(
        stop_request(&session, Platform::Unix),
        Err(Error("no game session in progress".to_string()))
    );
    started(&mut session, 77);
    assert_eq!(
        stop_request(&session, Platform::Windows),
        Ok((
            "taskkill",
            vec!["/PID".to_string(), "77".to_string(), "/T".to_string(), "/F".to_string()]
        ))
    );
}

#[test]
fn le_numero_se_pose_et_se_reprend() {
    let mut partie = GameSession::new();
    terminee(&mut partie);
    assert_eq!(en_cours(&partie), None);

    demarree(&mut partie, 4242);
    assert_eq!(en_cours(&partie), Some(4242));

    terminee(&mut partie);
    assert_eq!(en_cours(&partie), None);
}

#[test]
fn l_ordre_d_arret_est_sans_menagement() {
    let (programme, arguments) = ordre_d_arret(1234, Platform::Windows);
    assert_eq!(programme, "taskkill");
    assert!(arguments.contains(&"/F".to_string()));
    assert!(arguments.contains(&"/T".to_string()));
    assert!(arguments.contains(&"1234".to_string()));

    let (programme, arguments) = ordre_d_arret(1234, Platform::Unix);
    assert_eq!(programme, "kill");
    assert_eq!(arguments, vec!["-KILL".to_string(), "1234".to_string()]);
    assert!(arguments.contains(&"1234".to_string()));
}

#[test]
fn arreter_sans_partie_est_refuse() {
    let partie = GameSession::new();
    assert_eq!(
        demande_d_arret(&partie, Platform::Unix),
        Err(Erreur("aucune partie en cours".to_string()))
    );
}
