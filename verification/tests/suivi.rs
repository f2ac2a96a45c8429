use mc_app::phase::Phase;
use mc_app::tracker::{in_progress, DownloadProgress, Fetched, Progress, Tracker};

fn suivi() -> Tracker {
    Tracker::default()
}

fn photo(suivi: &Tracker) -> Progress {
    suivi.snapshot(0, None)
}

#[test]
fn les_octets_recus_s_additionnent() {
    let mut suivi = suivi();
    suivi.download(DownloadProgress::Received(1_000));
    suivi.download(DownloadProgress::Received(2_500));

    assert_eq!(photo(&suivi).bytes, 3_500);
}

#[test]
fn un_reessai_ne_fait_pas_depasser_la_barre() {
    let mut suivi = suivi();
    suivi.download(DownloadProgress::Received(800));
    suivi.download(DownloadProgress::Lost(800));
    suivi.download(DownloadProgress::Received(1_000));

    assert_eq!(photo(&suivi).bytes, 1_000);
}

#[test]
fn retirer_plus_que_compte_ne_repasse_pas_par_zero() {
    let mut suivi = suivi();
    suivi.download(DownloadProgress::Received(100));
    suivi.download(DownloadProgress::Lost(5_000));

    assert_eq!(photo(&suivi).bytes, 0);
}

#[test]
fn un_fichier_deja_present_fait_avancer_la_barre_sans_rien_telecharger() {
    let mut suivi = suivi();
    suivi.download(DownloadProgress::Finished {
        file: "jei.jar".to_string(),
        state: Fetched::AlreadyPresent,
        bytes: 4_000,
    });

    let photo = photo(&suivi);
    assert_eq!(photo.bytes, 4_000);
    assert_eq!(photo.files, 1);
}

#[test]
fn un_fichier_telecharge_n_est_pas_compte_deux_fois() {
    let mut suivi = suivi();
    suivi.download(DownloadProgress::Received(4_000));
    suivi.download(DownloadProgress::Finished {
        file: "jei.jar".to_string(),
        state: Fetched::Downloaded,
        bytes: 4_000,
    });

    let photo = photo(&suivi);
    assert_eq!(photo.bytes, 4_000);
    assert_eq!(photo.files, 1);
}

#[test]
fn un_nouveau_lot_repart_de_zero() {
    let mut suivi = suivi();
    suivi.download(DownloadProgress::Batch { files: 10, bytes: 1_000 });
    suivi.download(DownloadProgress::Received(1_000));
    suivi.download(DownloadProgress::Batch {
        files: 2_500,
        bytes: 830_000_000,
    });

    let photo = photo(&suivi);
    assert_eq!(photo.bytes, 0);
    assert_eq!(photo.total, 830_000_000);
    assert_eq!(photo.files, 0);
    assert_eq!(photo.files_total, 2_500);
}

#[test]
fn le_fichier_en_cours_est_celui_qui_vient_de_commencer() {
    let mut suivi = suivi();
    suivi.download(DownloadProgress::Started {
        file: "lwjgl.jar".to_string(),
        bytes: Some(900),
    });
    suivi.download(DownloadProgress::Started {
        file: "jei-1.21.1.jar".to_string(),
        bytes: None,
    });

    assert_eq!(photo(&suivi).file.as_deref(), Some("jei-1.21.1.jar"));
}

#[test]
fn la_phase_et_la_note_traversent_telles_quelles() {
    let mut suivi = suivi();
    suivi.phase(Phase::Mods);
    suivi.note("128 mods, dont 43 ajoutés par résolution");

    let photo = photo(&suivi);
    assert_eq!(photo.phase, Phase::Mods);
    assert_eq!(
        photo.note.as_deref(),
        Some("128 mods, dont 43 ajoutés par résolution")
    );
}

#[test]
fn un_lot_complet_ne_compte_plus_comme_un_telechargement_en_cours() {
    let mut suivi = suivi();
    suivi.download(DownloadProgress::Batch { files: 2, bytes: 200 });
    assert!(photo(&suivi).active, "le lot vient de commencer");

    for _ in 0..2 {
        suivi.download(DownloadProgress::Finished {
            file: "jei.jar".to_string(),
            state: Fetched::Downloaded,
            bytes: 100,
        });
    }

    assert!(!photo(&suivi).active, "tous les fichiers sont réglés");
}

#[test]
fn sans_lot_annonce_rien_n_est_en_cours() {
    assert!(!in_progress(0, 0));
    assert!(in_progress(0, 10));
    assert!(!in_progress(10, 10));
    assert!(!in_progress(11, 10));
}

#[test]
fn une_phase_achevee_se_distingue_d_une_phase_qui_travaille() {
    let mut suivi = suivi();

    suivi.phase(Phase::Mods);
    assert!(!photo(&suivi).done);

    suivi.finish(Phase::Ready);
    let photo = photo(&suivi);
    assert_eq!(photo.phase, Phase::Ready);
    assert!(photo.done);
}

#[test]
fn terminer_efface_le_lot_et_le_fichier_en_cours() {
    let mut suivi = suivi();
    suivi.download(DownloadProgress::Batch { files: 3, bytes: 300 });
    suivi.download(DownloadProgress::Started {
        file: "jei.jar".to_string(),
        bytes: Some(100),
    });
    suivi.download(DownloadProgress::Received(300));

    suivi.finish(Phase::Ready);

    let photo = photo(&suivi);
    assert_eq!(photo.total, 0);
    assert_eq!(photo.bytes, 0);
    assert_eq!(photo.files_total, 0);
    assert_eq!(photo.file, None);
    assert!(!photo.active);
}

#[test]
fn reprendre_une_phase_annule_l_achevement() {
    let mut suivi = suivi();
    suivi.finish(Phase::Ready);

    suivi.phase(Phase::Minecraft);

    assert!(!photo(&suivi).done);
}
